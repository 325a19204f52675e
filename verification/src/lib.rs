//! Core logic of the DashCat tray utility: settings, sleep prevention,
//! mouse-wheel reversal, resource monitors, the tray icon and menu, and
//! clipboard history helpers.

pub mod autostart;
pub mod caffeine;
pub mod clipboard;
pub mod icon;
pub mod menu;
pub mod monitor;
pub mod paths;
pub mod settings;
pub mod text;
pub mod wheel;
pub mod window;

pub use settings::{CaffeineMode, DisplayMode, Language, MonitorMode, Settings};
