use dashcat::autostart::reg_sz_value;
use dashcat::caffeine::{execution_state, Caffeine, ES_CONTINUOUS, ES_DISPLAY_REQUIRED, ES_SYSTEM_REQUIRED};
use dashcat::menu::{check, menu_entries, MF_CHECKED, MF_GRAYED, MF_SEPARATOR, MF_STRING};
use dashcat::monitor::{CpuMonitor, CpuStep, MemoryMonitor, CPU_MIN_INTERVAL_NANOS};
use dashcat::settings::{CaffeineMode, DisplayMode, Language, MonitorMode, Settings};
use dashcat::wheel::{hiword, intercepts, loword, makelong, point_lparam, reverse_wheel_data, HookAction, WheelReverser, WM_MOUSEWHEEL};
use dashcat::window::{classify_message, WindowEvent};

#[test]
fn settings_default_values() {
    let s = Settings::default();
    assert_eq!(s.monitor_mode, MonitorMode::Combined);
    assert_eq!(s.display_mode, DisplayMode::Both);
    assert_eq!(s.caffeine_mode, CaffeineMode::Off);
    assert!(!s.save_images);
    assert_eq!(s.history_days, 30);
    assert!(!s.reverse_mouse_wheel);
    assert!(!s.launch_at_startup);
    assert_eq!(s.language, Language::English);
    assert_eq!(Language::default(), Language::English);
}

#[test]
fn caffeine_states_per_mode() {
    assert_eq!(execution_state(CaffeineMode::Off), 0x8000_0000);
    assert_eq!(execution_state(CaffeineMode::NoSleep), 0x8000_0001);
    assert_eq!(execution_state(CaffeineMode::NoDisplaySleep), 0x8000_0003);
    assert_eq!(execution_state(CaffeineMode::NoDisplaySleep), ES_CONTINUOUS | ES_SYSTEM_REQUIRED | ES_DISPLAY_REQUIRED);
}

#[test]
fn caffeine_set_mode_then_read_back() {
    let mut c = Caffeine::new();
    assert_eq!(c.current_mode(), CaffeineMode::Off);
    let st = c.set_mode(CaffeineMode::NoDisplaySleep);
    assert_eq!(st, 0x8000_0003);
    assert_eq!(c.current_mode(), CaffeineMode::NoDisplaySleep);
    let st = c.set_mode(CaffeineMode::Off);
    assert_eq!(st, ES_CONTINUOUS);
    assert_eq!(c.current_mode(), CaffeineMode::Off);
    assert_eq!(c.release_state(), ES_CONTINUOUS);
    assert_eq!(Caffeine::default().current_mode(), CaffeineMode::Off);
}

#[test]
fn wheel_word_helpers() {
    assert_eq!(hiword(0xFF88_1234), -120);
    assert_eq!(loword(0xFF88_1234), 0x1234);
    assert_eq!(makelong(0x1234, 0x0078), 0x0078_1234);
    assert_eq!(makelong(0x1234, 0x1_0078), 0x0078_1234);
}

#[test]
fn wheel_delta_is_negated() {
    // delta +120 (one notch up) becomes -120
    assert_eq!(reverse_wheel_data(0x0078_0000), 0xFF88_0000);
    assert_eq!(reverse_wheel_data(0xFF88_0000), 0x0078_0000);
    // the low word is kept
    assert_eq!(reverse_wheel_data(0x0078_ABCD), 0xFF88_ABCD);
    assert_eq!(reverse_wheel_data(0), 0);
    // i16::MIN wraps onto itself
    assert_eq!(reverse_wheel_data(0x8000_0001), 0x8000_0001);
}

#[test]
fn wheel_reverse_twice_restores() {
    for x in [0u32, 1, 0x0078_0000, 0xFF88_0010, 0x8000_0000, 0xFFFF_FFFF, 0x1234_5678] {
        assert_eq!(reverse_wheel_data(reverse_wheel_data(x)), x);
    }
}

#[test]
fn wheel_point_lparam() {
    assert_eq!(point_lparam(3, 2), 0x0002_0003);
    assert_eq!(point_lparam(-1, 2), 0x0002_FFFF);
    assert_eq!(point_lparam(-1, -2), 0xFFFE_FFFF);
}

#[test]
fn wheel_intercepts_only_wheel_messages() {
    assert!(intercepts(true, 0, WM_MOUSEWHEEL));
    assert!(!intercepts(false, 0, WM_MOUSEWHEEL));
    assert!(!intercepts(true, -1, WM_MOUSEWHEEL));
    assert!(!intercepts(true, 0, 0x0200));
}

#[test]
fn wheel_reverser_hook_actions() {
    let mut w = WheelReverser::new();
    assert!(!w.is_enabled());
    assert_eq!(w.release_action(), HookAction::Keep);
    assert_eq!(w.set_enabled(true), HookAction::Install);
    assert!(w.is_enabled());
    assert_eq!(w.set_enabled(true), HookAction::Keep);
    assert_eq!(w.release_action(), HookAction::Remove);
    assert_eq!(w.set_enabled(false), HookAction::Remove);
    assert!(!w.is_enabled());
    assert_eq!(w.set_enabled(false), HookAction::Keep);
    assert!(!WheelReverser::default().is_enabled());
}

#[test]
fn menu_layout_and_checks() {
    let items = menu_entries("0.2.0", MonitorMode::Cpu, DisplayMode::DualValues, CaffeineMode::NoSleep, true);
    assert_eq!(items.len(), 21);
    assert_eq!(items[0].label, "DashCat v0.2.0");
    assert_eq!(items[0].flags, MF_STRING | MF_GRAYED);
    assert_eq!(items[1].flags, MF_SEPARATOR);
    assert_eq!(items[4].id, 101);
    assert_eq!(items[4].label, "  CPU Only");
    assert_eq!(items[20].id, 999);
    assert_eq!(items[20].label, "Quit DashCat");
    let checked: Vec<usize> = items.iter().filter(|e| e.flags & MF_CHECKED != 0).map(|e| e.id).collect();
    assert_eq!(checked, vec![101, 203, 301, 400]);
    let items = menu_entries("1", MonitorMode::Combined, DisplayMode::Both, CaffeineMode::Off, false);
    let checked: Vec<usize> = items.iter().filter(|e| e.flags & MF_CHECKED != 0).map(|e| e.id).collect();
    assert_eq!(checked, vec![100, 200, 300]);
    assert_eq!(check(true), MF_CHECKED);
    assert_eq!(check(false), 0);
}

#[test]
fn window_messages() {
    assert_eq!(classify_message(0x0002, 0), WindowEvent::Quit);
    assert_eq!(classify_message(0x0401, 0x0202), WindowEvent::TrayLeftClick);
    assert_eq!(classify_message(0x0401, 0x0205), WindowEvent::TrayRightClick);
    assert_eq!(classify_message(0x0401, 0x0200), WindowEvent::TrayOther);
    assert_eq!(classify_message(0x0401, 0x1_0000_0205), WindowEvent::TrayRightClick);
    assert_eq!(classify_message(0x000F, 0), WindowEvent::Unhandled);
}

#[test]
fn cpu_monitor_schedule() {
    let mut m = CpuMonitor::new(1_000);
    assert_eq!(m.next_step(1_000 + CPU_MIN_INTERVAL_NANOS - 1), CpuStep::Throttled);
    assert_eq!(m.next_step(1_000 + CPU_MIN_INTERVAL_NANOS), CpuStep::Initialize);
    // query opened but no counter: not set up, time not advanced
    m.finish_init(Some(7), None, 200_000_000);
    assert_eq!(m.query(), 7);
    assert!(!m.needs_close());
    assert_eq!(m.next_step(200_000_000), CpuStep::Initialize);
    m.finish_init(Some(8), Some(9), 300_000_000);
    assert_eq!((m.query(), m.counter()), (8, 9));
    assert!(m.needs_close());
    assert_eq!(m.next_step(350_000_000), CpuStep::Throttled);
    assert_eq!(m.next_step(400_000_000), CpuStep::Sample);
    m.finish_sample(false, 400_000_000);
    assert_eq!(m.next_step(450_000_000), CpuStep::Sample);
    m.finish_sample(true, 450_000_000);
    assert_eq!(m.next_step(500_000_000), CpuStep::Throttled);
    // a clock reading before the last value counts as too soon
    assert_eq!(m.next_step(0), CpuStep::Throttled);
}

#[test]
fn memory_load_percent() {
    let m = MemoryMonitor::new();
    assert_eq!(m.load_percent(1, 42), 42);
    assert_eq!(m.load_percent(0, 42), 0);
    assert_eq!(MemoryMonitor::default().load_percent(-3, 7), 7);
}

#[test]
fn autostart_registry_data() {
    assert_eq!(reg_sz_value("C:\\a"), vec![b'C', 0, b':', 0, b'\\', 0, b'a', 0, 0, 0]);
    assert_eq!(reg_sz_value(""), vec![0, 0]);
    // U+00E9 is one unit; U+1F431 is the surrogate pair D83D DC31
    assert_eq!(reg_sz_value("\u{e9}\u{1F431}"), vec![0xE9, 0x00, 0x3D, 0xD8, 0x31, 0xDC, 0, 0]);
    let s = "DashCat\u{4e2d}\u{1F600}";
    let expected: Vec<u8> = s.encode_utf16().chain(std::iter::once(0)).flat_map(|u| u.to_le_bytes()).collect();
    assert_eq!(reg_sz_value(s), expected);
}
