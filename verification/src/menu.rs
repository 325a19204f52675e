//! The tray context menu: its items, their command ids and their flags.
use vstd::prelude::*;
use crate::settings::{CaffeineMode, DisplayMode, MonitorMode};

verus! {

broadcast use vstd::string::group_string_axioms;

/// `MF_STRING`: a text item.
pub const MF_STRING: u32 = 0x0000;

/// `MF_GRAYED`: a disabled item.
pub const MF_GRAYED: u32 = 0x0001;

/// `MF_CHECKED`: an item with a check mark.
pub const MF_CHECKED: u32 = 0x0008;

/// `MF_SEPARATOR`: a separator line.
pub const MF_SEPARATOR: u32 = 0x0800;

/// Command id of the item that quits the application.
pub const ID_QUIT: usize = 999;

/// Command id of the launch-at-login item.
pub const ID_LAUNCH_AT_LOGIN: usize = 400;

/// One menu item: its flags, its command id (0 for headers and separators)
/// and its label.
pub struct MenuEntry {
    pub flags: u32,
    pub id: usize,
    pub label: String,
}

impl MenuEntry {
    /// The flags, id and label text of the item.
    pub open spec fn view(self) -> (u32, usize, Seq<char>) {
        (self.flags, self.id, self.label@)
    }
}

/// The flag that puts a check mark on an item where `condition` holds.
pub open spec fn check_of(condition: bool) -> u32 {
    if condition {
        MF_CHECKED
    } else {
        MF_STRING
    }
}

/// The check-mark flag for `condition`.
pub fn check(condition: bool) -> (flags: u32)
    ensures
        flags == check_of(condition),
{
    if condition {
        MF_CHECKED
    } else {
        MF_STRING
    }
}

/// Command id of the item for a monitor mode.
pub open spec fn monitor_item_id(m: MonitorMode) -> usize {
    match m {
        MonitorMode::Combined => 100,
        MonitorMode::Cpu => 101,
        MonitorMode::Memory => 102,
    }
}

/// Command id of the item for a display mode.
pub open spec fn display_item_id(d: DisplayMode) -> usize {
    match d {
        DisplayMode::Both => 200,
        DisplayMode::AnimOnly => 201,
        DisplayMode::PctOnly => 202,
        DisplayMode::DualValues => 203,
    }
}

/// Command id of the item for a sleep prevention mode.
pub open spec fn caffeine_item_id(c: CaffeineMode) -> usize {
    match c {
        CaffeineMode::Off => 300,
        CaffeineMode::NoSleep => 301,
        CaffeineMode::NoDisplaySleep => 302,
    }
}

/// The whole menu for the given version text, modes and launch-at-login state.
pub open spec fn menu_of(
    version: Seq<char>,
    monitor: MonitorMode,
    display: DisplayMode,
    caffeine: CaffeineMode,
    auto_start: bool,
) -> Seq<(u32, usize, Seq<char>)> {
    let sep = (MF_SEPARATOR, 0usize, ""@);
    seq![
        ((MF_STRING | MF_GRAYED) as u32, 0usize, "DashCat v"@ + version),
        sep,
        ((MF_STRING | MF_GRAYED) as u32, 0usize, "Monitor Mode"@),
        (check_of(monitor == MonitorMode::Combined), 100usize, "  Combined"@),
        (check_of(monitor == MonitorMode::Cpu), 101usize, "  CPU Only"@),
        (check_of(monitor == MonitorMode::Memory), 102usize, "  Memory Only"@),
        sep,
        ((MF_STRING | MF_GRAYED) as u32, 0usize, "Display Mode"@),
        (check_of(display == DisplayMode::Both), 200usize, "  Animation + Percent"@),
        (check_of(display == DisplayMode::AnimOnly), 201usize, "  Animation Only"@),
        (check_of(display == DisplayMode::PctOnly), 202usize, "  Percent Only"@),
        (check_of(display == DisplayMode::DualValues), 203usize, "  Dual Values"@),
        sep,
        ((MF_STRING | MF_GRAYED) as u32, 0usize, "Sleep Prevention"@),
        (check_of(caffeine == CaffeineMode::Off), 300usize, "  Off"@),
        (check_of(caffeine == CaffeineMode::NoSleep), 301usize, "  Prevent System Sleep"@),
        (check_of(caffeine == CaffeineMode::NoDisplaySleep), 302usize, "  Prevent Display Sleep"@),
        sep,
        (check_of(auto_start), ID_LAUNCH_AT_LOGIN, "Launch at Login"@),
        sep,
        (MF_STRING, ID_QUIT, "Quit DashCat"@),
    ]
}

fn entry(flags: u32, id: usize, label: &str) -> (e: MenuEntry)
    ensures
        e.view() == (flags, id, label@),
{
    MenuEntry { flags, id, label: String::from_str(label) }
}

/// The items of the tray menu, top to bottom: the version line, then the
/// monitor, display and sleep prevention sections with the current mode of
/// each checked, then launch at login and quit, separated by lines.
pub fn menu_entries(
    version: &str,
    monitor: MonitorMode,
    display: DisplayMode,
    caffeine: CaffeineMode,
    auto_start: bool,
) -> (entries: Vec<MenuEntry>)
    ensures
        entries@.map_values(|e: MenuEntry| e.view()) == menu_of(
            version@,
            monitor,
            display,
            caffeine,
            auto_start,
        ),
{
    let grayed = MF_STRING | MF_GRAYED;
    assert(MF_STRING | MF_GRAYED == 1u32) by (bit_vector);
    let mut v: Vec<MenuEntry> = Vec::new();
    let mut title = String::from_str("DashCat v");
    title.append(version);
    v.push(MenuEntry { flags: grayed, id: 0, label: title });
    v.push(entry(MF_SEPARATOR, 0, ""));
    v.push(entry(grayed, 0, "Monitor Mode"));
    v.push(entry(check(monitor == MonitorMode::Combined), 100, "  Combined"));
    v.push(entry(check(monitor == MonitorMode::Cpu), 101, "  CPU Only"));
    v.push(entry(check(monitor == MonitorMode::Memory), 102, "  Memory Only"));
    v.push(entry(MF_SEPARATOR, 0, ""));
    v.push(entry(grayed, 0, "Display Mode"));
    v.push(entry(check(display == DisplayMode::Both), 200, "  Animation + Percent"));
    v.push(entry(check(display == DisplayMode::AnimOnly), 201, "  Animation Only"));
    v.push(entry(check(display == DisplayMode::PctOnly), 202, "  Percent Only"));
    v.push(entry(check(display == DisplayMode::DualValues), 203, "  Dual Values"));
    v.push(entry(MF_SEPARATOR, 0, ""));
    v.push(entry(grayed, 0, "Sleep Prevention"));
    v.push(entry(check(caffeine == CaffeineMode::Off), 300, "  Off"));
    v.push(entry(check(caffeine == CaffeineMode::NoSleep), 301, "  Prevent System Sleep"));
    v.push(entry(check(caffeine == CaffeineMode::NoDisplaySleep), 302, "  Prevent Display Sleep"));
    v.push(entry(MF_SEPARATOR, 0, ""));
    v.push(entry(check(auto_start), ID_LAUNCH_AT_LOGIN, "Launch at Login"));
    v.push(entry(MF_SEPARATOR, 0, ""));
    v.push(entry(MF_STRING, ID_QUIT, "Quit DashCat"));
    assert(v@.map_values(|e: MenuEntry| e.view()) =~= menu_of(
        version@,
        monitor,
        display,
        caffeine,
        auto_start,
    ));
    v
}

/// Law: the label of every command item is fixed by its command id, whatever
/// the modes: 100-102 name the monitor modes, 200-203 the display modes,
/// 300-302 the sleep prevention modes, 400 launch at login and 999 quit.
pub proof fn labels_follow_ids(
    version: Seq<char>,
    monitor: MonitorMode,
    display: DisplayMode,
    caffeine: CaffeineMode,
    auto_start: bool,
)
    ensures
        forall|i: int|
            0 <= i < menu_of(version, monitor, display, caffeine, auto_start).len() ==> {
                let e = #[trigger] menu_of(version, monitor, display, caffeine, auto_start)[i];
                &&& e.1 == 100 ==> e.2 == "  Combined"@
                &&& e.1 == 101 ==> e.2 == "  CPU Only"@
                &&& e.1 == 102 ==> e.2 == "  Memory Only"@
                &&& e.1 == 200 ==> e.2 == "  Animation + Percent"@
                &&& e.1 == 201 ==> e.2 == "  Animation Only"@
                &&& e.1 == 202 ==> e.2 == "  Percent Only"@
                &&& e.1 == 203 ==> e.2 == "  Dual Values"@
                &&& e.1 == 300 ==> e.2 == "  Off"@
                &&& e.1 == 301 ==> e.2 == "  Prevent System Sleep"@
                &&& e.1 == 302 ==> e.2 == "  Prevent Display Sleep"@
                &&& e.1 == 400 ==> e.2 == "Launch at Login"@
                &&& e.1 == 999 ==> e.2 == "Quit DashCat"@
            },
{
    let m = menu_of(version, monitor, display, caffeine, auto_start);
    assert(m.len() == 21);
}

/// Law: the items of the menu that carry a check mark are exactly the items
/// of the current monitor, display and sleep prevention modes, and the
/// launch-at-login item when launching at login is on.
pub proof fn checked_items_are_current_modes(
    version: Seq<char>,
    monitor: MonitorMode,
    display: DisplayMode,
    caffeine: CaffeineMode,
    auto_start: bool,
)
    ensures
        forall|i: int|
            0 <= i < menu_of(version, monitor, display, caffeine, auto_start).len() ==> {
                let e = #[trigger] menu_of(version, monitor, display, caffeine, auto_start)[i];
                (e.0 & MF_CHECKED != 0) <==> (e.1 == monitor_item_id(monitor) || e.1
                    == display_item_id(display) || e.1 == caffeine_item_id(caffeine) || (e.1
                    == ID_LAUNCH_AT_LOGIN && auto_start))
            },
{
    let m = menu_of(version, monitor, display, caffeine, auto_start);
    assert(MF_CHECKED & MF_CHECKED != 0) by (bit_vector);
    assert(MF_STRING & MF_CHECKED == 0) by (bit_vector);
    assert(MF_SEPARATOR & MF_CHECKED == 0) by (bit_vector);
    assert((MF_STRING | MF_GRAYED) & MF_CHECKED == 0) by (bit_vector);
    assert forall|i: int| 0 <= i < m.len() implies {
        let e = #[trigger] m[i];
        (e.0 & MF_CHECKED != 0) <==> (e.1 == monitor_item_id(monitor) || e.1 == display_item_id(
            display,
        ) || e.1 == caffeine_item_id(caffeine) || (e.1 == ID_LAUNCH_AT_LOGIN && auto_start))
    } by {
        assert(m.len() == 21);
    }
}

} // verus!
