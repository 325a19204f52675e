//! Mouse wheel reversal: when the low-level mouse hook is on, each wheel
//! message is replaced by one whose wheel delta has the opposite sign.
use vstd::prelude::*;

verus! {

/// `WM_MOUSEWHEEL`.
pub const WM_MOUSEWHEEL: u32 = 0x020A;

/// The high 16 bits of a 32-bit word.
pub open spec fn high_word(x: u32) -> u16 {
    (x / 0x10000) as u16
}

/// The low 16 bits of a 32-bit word.
pub open spec fn low_word(x: u32) -> u16 {
    (x % 0x10000) as u16
}

/// The 16-bit two's complement negation of a wheel delta.
pub open spec fn negated_word(w: u16) -> u16 {
    ((0x10000 - w) % 0x10000) as u16
}

/// The mouse data of a wheel event with the delta (its high word) negated
/// and its low word kept.
pub open spec fn reversed_wheel_data(x: u32) -> u32 {
    (negated_word(high_word(x)) * 0x10000 + low_word(x)) as u32
}

/// The `lParam` of a wheel message at screen point (`x`, `y`): the low 16
/// bits of `y` above the low 16 bits of `x`.
pub open spec fn point_lparam_of(x: i32, y: i32) -> usize {
    ((y as u16) * 0x10000 + (x as u16)) as usize
}

/// `HIWORD`: the high 16 bits of `x`, as a signed wheel delta.
pub fn hiword(x: u32) -> (w: i16)
    ensures
        w as u16 == high_word(x),
{
    let w = ((x >> 16) & 0xFFFF) as u16;
    assert(w == high_word(x)) by (bit_vector)
        requires
            w == ((x >> 16) & 0xFFFF) as u16,
    ;
    let s = w as i16;
    assert(s as u16 == w) by (bit_vector)
        requires
            s == w as i16,
    ;
    s
}

/// `LOWORD`: the low 16 bits of `x`.
pub fn loword(x: u32) -> (w: u16)
    ensures
        w == low_word(x),
{
    let w = (x & 0xFFFF) as u16;
    assert(w == low_word(x)) by (bit_vector)
        requires
            w == (x & 0xFFFF) as u16,
    ;
    w
}

/// `MAKELONG`: `lo` in the low 16 bits and `hi` above them (bits of `hi`
/// beyond the 16th are shifted out).
pub fn makelong(lo: u16, hi: u32) -> (x: u32)
    ensures
        x == ((hi % 0x10000) * 0x10000 + lo) as u32,
{
    let x = (hi << 16) | (lo as u32);
    assert(x == ((hi % 0x10000) * 0x10000 + lo) as u32) by (bit_vector)
        requires
            x == (hi << 16) | (lo as u32),
    ;
    x
}

/// The mouse data of the reversed wheel event for an event with mouse data
/// `mouse_data`.
pub fn reverse_wheel_data(mouse_data: u32) -> (r: u32)
    ensures
        r == reversed_wheel_data(mouse_data),
{
    let delta = hiword(mouse_data);
    let reversed: u16 = (0u16).wrapping_sub(delta as u16);
    assert(reversed == negated_word(high_word(mouse_data))) by {
        assert(delta as u16 == high_word(mouse_data));
    }
    makelong(loword(mouse_data), reversed as u32)
}

/// The `lParam` of the wheel message posted for screen point (`x`, `y`).
pub fn point_lparam(x: i32, y: i32) -> (l: usize)
    ensures
        l == point_lparam_of(x, y),
{
    let yw = y as u16;
    let xw = x as u16;
    let l32 = ((yw as u32) << 16) | (xw as u32);
    assert(l32 == (yw * 0x10000 + xw) as u32) by (bit_vector)
        requires
            l32 == ((yw as u32) << 16) | (xw as u32),
    ;
    l32 as usize
}

/// Whether the hook replaces the event: reversal is on, the hook code asks
/// for processing, and the message is a wheel message.
pub fn intercepts(reversing: bool, code: i32, msg: u32) -> (b: bool)
    ensures
        b == (reversing && code >= 0 && msg == WM_MOUSEWHEEL),
{
    reversing && code >= 0 && msg == WM_MOUSEWHEEL
}

/// Law: reversing a wheel event twice gives back the mouse data it started from.
pub proof fn reverse_twice_restores(x: u32)
    ensures
        reversed_wheel_data(reversed_wheel_data(x)) == x,
        low_word(reversed_wheel_data(x)) == low_word(x),
{
    let h = high_word(x);
    let l = low_word(x);
    let n = negated_word(h);
    let r = reversed_wheel_data(x);
    assert(x == h * 0x10000 + l);
    assert(r == n * 0x10000 + l);
    assert(high_word(r) == n && low_word(r) == l) by (nonlinear_arith)
        requires
            r == n * 0x10000 + l,
            0 <= n < 0x10000,
            0 <= l < 0x10000,
            r == r as int,
    ;
    assert(negated_word(n) == h);
}

/// Law: the reversed event carries the opposite wheel delta, for every delta:
/// its high word added to the original high word is 0 modulo 2^16 (so a
/// signed delta `d` other than -32768 becomes `-d`), and the low word is kept.
pub proof fn reverse_negates_delta(x: u32)
    ensures
        (reversed_wheel_data(x) / 0x10000 + x / 0x10000) % 0x10000 == 0,
        reversed_wheel_data(x) % 0x10000 == x % 0x10000,
        x / 0x10000 != 0 && x / 0x10000 != 0x8000 ==> reversed_wheel_data(x) / 0x10000
            == 0x10000 - x / 0x10000,
{
    let h = x / 0x10000;
    let l = x % 0x10000;
    let n = ((0x10000 - h) % 0x10000) as u16;
    let r = reversed_wheel_data(x);
    assert(r == n * 0x10000 + l);
    assert(r / 0x10000 == n && r % 0x10000 == l) by (nonlinear_arith)
        requires
            r == n * 0x10000 + l,
            0 <= n < 0x10000,
            0 <= l < 0x10000,
    ;
}

/// What to do with the mouse hook after a change of the setting.
#[derive(Debug, Clone, Copy, PartialEq, Eq, Structural)]
pub enum HookAction {
    Install,
    Remove,
    Keep,
}

/// Mouse wheel reverser: whether reversal is on.
pub struct WheelReverser {
    enabled: bool,
}

impl WheelReverser {
    /// Whether reversal is on.
    pub closed spec fn on(self) -> bool {
        self.enabled
    }

    /// Starts with reversal off.
    pub fn new() -> (w: Self)
        ensures
            !w.on(),
    {
        WheelReverser { enabled: false }
    }

    /// Turns reversal on or off; returns what to do with the hook: install
    /// it when reversal goes on, remove it when it goes off, else nothing.
    pub fn set_enabled(&mut self, enabled: bool) -> (action: HookAction)
        ensures
            final(self).on() == enabled,
            action == if enabled && !old(self).on() {
                HookAction::Install
            } else if !enabled && old(self).on() {
                HookAction::Remove
            } else {
                HookAction::Keep
            },
    {
        let action = if enabled && !self.enabled {
            HookAction::Install
        } else if !enabled && self.enabled {
            HookAction::Remove
        } else {
            HookAction::Keep
        };
        self.enabled = enabled;
        action
    }

    /// Whether reversal is on.
    pub fn is_enabled(&self) -> (b: bool)
        ensures
            b == self.on(),
    {
        self.enabled
    }

    /// What to do with the hook when the reverser goes away.
    pub fn release_action(&self) -> (action: HookAction)
        ensures
            action == if self.on() {
                HookAction::Remove
            } else {
                HookAction::Keep
            },
    {
        if self.enabled {
            HookAction::Remove
        } else {
            HookAction::Keep
        }
    }
}

impl Default for WheelReverser {
    fn default() -> (w: Self)
        ensures
            !w.on(),
    {
        WheelReverser::new()
    }
}

} // verus!
