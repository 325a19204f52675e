//! User settings and preferences.
use vstd::prelude::*;

verus! {

/// Which metric the tray icon follows.
#[derive(Debug, Clone, Copy, PartialEq, Eq, Structural)]
pub enum MonitorMode {
    Combined,
    Cpu,
    Memory,
}

/// How the monitored value is shown.
#[derive(Debug, Clone, Copy, PartialEq, Eq, Structural)]
pub enum DisplayMode {
    /// Percentage and animation.
    Both,
    /// Animation only.
    AnimOnly,
    /// Percentage only.
    PctOnly,
    /// CPU% / MEM%.
    DualValues,
}

/// Sleep prevention mode.
#[derive(Debug, Clone, Copy, PartialEq, Eq, Structural)]
pub enum CaffeineMode {
    Off,
    /// Keep the system awake; the screen may turn off.
    NoSleep,
    /// Keep the system and the screen awake.
    NoDisplaySleep,
}

/// Supported interface languages.
#[derive(Debug, Clone, Copy, PartialEq, Eq, Structural)]
pub enum Language {
    Chinese,
    TraditionalChinese,
    English,
    Japanese,
    Korean,
    German,
    French,
    Spanish,
    PortugueseBrazil,
    Italian,
    Russian,
}

impl Default for Language {
    fn default() -> (lang: Self)
        ensures
            lang == Language::English,
    {
        Language::English
    }
}

/// Main application settings.
#[derive(Debug, Clone, Copy, PartialEq, Eq, Structural)]
pub struct Settings {
    pub monitor_mode: MonitorMode,
    pub display_mode: DisplayMode,
    pub caffeine_mode: CaffeineMode,
    /// Save images to the clipboard history.
    pub save_images: bool,
    /// Days to keep clipboard history.
    pub history_days: u32,
    pub reverse_mouse_wheel: bool,
    pub launch_at_startup: bool,
    pub language: Language,
}

impl Settings {
    /// The settings a fresh installation starts with.
    pub open spec fn spec_default() -> Settings {
        Settings {
            monitor_mode: MonitorMode::Combined,
            display_mode: DisplayMode::Both,
            caffeine_mode: CaffeineMode::Off,
            save_images: false,
            history_days: 30,
            reverse_mouse_wheel: false,
            launch_at_startup: false,
            language: Language::English,
        }
    }
}

impl Default for Settings {
    fn default() -> (s: Self)
        ensures
            s == Settings::spec_default(),
    {
        Settings {
            monitor_mode: MonitorMode::Combined,
            display_mode: DisplayMode::Both,
            caffeine_mode: CaffeineMode::Off,
            save_images: false,
            history_days: 30,
            reverse_mouse_wheel: false,
            launch_at_startup: false,
            language: Language::default(),
        }
    }
}

} // verus!
