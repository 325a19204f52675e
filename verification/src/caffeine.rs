//! Sleep prevention: which thread execution state each mode asks Windows for.
use vstd::prelude::*;
use crate::settings::CaffeineMode;

verus! {

/// `ES_CONTINUOUS`: the state stays in effect until it is changed again.
pub const ES_CONTINUOUS: u32 = 0x8000_0000;

/// `ES_SYSTEM_REQUIRED`: keep the system from sleeping.
pub const ES_SYSTEM_REQUIRED: u32 = 0x0000_0001;

/// `ES_DISPLAY_REQUIRED`: keep the display on.
pub const ES_DISPLAY_REQUIRED: u32 = 0x0000_0002;

/// The execution state that puts `mode` into effect.
pub open spec fn execution_state_of(mode: CaffeineMode) -> u32 {
    match mode {
        CaffeineMode::Off => ES_CONTINUOUS,
        CaffeineMode::NoSleep => (ES_CONTINUOUS + ES_SYSTEM_REQUIRED) as u32,
        CaffeineMode::NoDisplaySleep => (ES_CONTINUOUS + ES_SYSTEM_REQUIRED
            + ES_DISPLAY_REQUIRED) as u32,
    }
}

/// The execution state that puts `mode` into effect.
pub fn execution_state(mode: CaffeineMode) -> (state: u32)
    ensures
        state == execution_state_of(mode),
{
    match mode {
        CaffeineMode::Off => ES_CONTINUOUS,
        CaffeineMode::NoSleep => {
            let s = ES_CONTINUOUS | ES_SYSTEM_REQUIRED;
            assert(ES_CONTINUOUS | ES_SYSTEM_REQUIRED == 0x8000_0001u32) by (bit_vector);
            s
        },
        CaffeineMode::NoDisplaySleep => {
            let s = ES_CONTINUOUS | ES_SYSTEM_REQUIRED | ES_DISPLAY_REQUIRED;
            assert(ES_CONTINUOUS | ES_SYSTEM_REQUIRED | ES_DISPLAY_REQUIRED == 0x8000_0003u32)
                by (bit_vector);
            s
        },
    }
}

/// Sleep prevention handler: remembers the mode in effect.
pub struct Caffeine {
    current_mode: CaffeineMode,
}

impl Caffeine {
    /// The mode in effect.
    pub closed spec fn mode(self) -> CaffeineMode {
        self.current_mode
    }

    /// Starts with sleep prevention off.
    pub fn new() -> (c: Self)
        ensures
            c.mode() == CaffeineMode::Off,
    {
        Caffeine { current_mode: CaffeineMode::Off }
    }

    /// Switches to `mode`; returns the execution state to set for it.
    pub fn set_mode(&mut self, mode: CaffeineMode) -> (state: u32)
        ensures
            final(self).mode() == mode,
            state == execution_state_of(mode),
    {
        self.current_mode = mode;
        execution_state(mode)
    }

    /// The mode in effect.
    pub fn current_mode(&self) -> (m: CaffeineMode)
        ensures
            m == self.mode(),
    {
        self.current_mode
    }

    /// The execution state to restore when the handler goes away: back to
    /// the default, which lets the system sleep.
    pub fn release_state(&self) -> (state: u32)
        ensures
            state == execution_state_of(CaffeineMode::Off),
    {
        ES_CONTINUOUS
    }
}

impl Default for Caffeine {
    fn default() -> (c: Self)
        ensures
            c.mode() == CaffeineMode::Off,
    {
        Caffeine::new()
    }
}

/// Law: every mode's state is continuous, so it lasts until the next change;
/// the system is kept awake exactly when the mode is not `Off`, and the
/// display exactly in `NoDisplaySleep`.
pub proof fn execution_state_flags(mode: CaffeineMode)
    ensures
        execution_state_of(mode) & ES_CONTINUOUS == ES_CONTINUOUS,
        (execution_state_of(mode) & ES_SYSTEM_REQUIRED != 0) == (mode != CaffeineMode::Off),
        (execution_state_of(mode) & ES_DISPLAY_REQUIRED != 0) == (mode
            == CaffeineMode::NoDisplaySleep),
{
    assert(0x8000_0000u32 & 0x8000_0000u32 == 0x8000_0000u32) by (bit_vector);
    assert(0x8000_0000u32 & 1u32 == 0u32) by (bit_vector);
    assert(0x8000_0000u32 & 2u32 == 0u32) by (bit_vector);
    assert(0x8000_0001u32 & 0x8000_0000u32 == 0x8000_0000u32) by (bit_vector);
    assert(0x8000_0001u32 & 1u32 == 1u32) by (bit_vector);
    assert(0x8000_0001u32 & 2u32 == 0u32) by (bit_vector);
    assert(0x8000_0003u32 & 0x8000_0000u32 == 0x8000_0000u32) by (bit_vector);
    assert(0x8000_0003u32 & 1u32 == 1u32) by (bit_vector);
    assert(0x8000_0003u32 & 2u32 == 2u32) by (bit_vector);
}

} // verus!
