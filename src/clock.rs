use vstd::prelude::*;

verus! {

/// Lowest external oscillator frequency the hardware accepts, in Hz.
pub const HSE_MIN_HZ: u32 = 4_000_000;

/// Highest external oscillator frequency the hardware accepts, in Hz.
pub const HSE_MAX_HZ: u32 = 26_000_000;

/// HSE clock modes
///     * `Oscillator`: use of an external crystal/ceramic resonator
///     * `Bypass`: use of an external user clock
#[derive(Clone, Copy, Debug, PartialEq, Eq, Structural)]
pub enum HSEClockMode {
    Oscillator,
    Bypass,
}

/// A validated external high-speed oscillator configuration.
#[derive(Clone, Copy, Debug, PartialEq, Eq, Structural)]
pub struct HSEClock {
    pub freq: u32,
    pub mode: HSEClockMode,
}

/// Whether `f` Hz lies in the oscillator's operating range.
pub open spec fn hse_frequency_ok(f: int) -> bool {
    HSE_MIN_HZ <= f <= HSE_MAX_HZ
}

impl HSEClock {
    /// The configuration's invariant: its frequency lies in the operating range.
    pub open spec fn wf(self) -> bool {
        hse_frequency_ok(self.freq as int)
    }

    /// Whether `freq` Hz is an acceptable HSE frequency.
    pub fn frequency_in_range(freq: u32) -> (r: bool)
        ensures
            r == hse_frequency_ok(freq as int),
    {
        HSE_MIN_HZ <= freq && freq <= HSE_MAX_HZ
    }

    /// Provide the HSE frequency in Hz. It must be between 4 and 26 MHz.
    pub fn new(freq: u32, mode: HSEClockMode) -> (r: Self)
        requires
            hse_frequency_ok(freq as int),
        ensures
            r == (HSEClock { freq, mode }),
            r.wf(),
    {
        HSEClock { freq, mode }
    }

    /// The configuration for `freq` Hz, or `None` when `freq` lies outside
    /// the operating range.
    pub fn try_new(freq: u32, mode: HSEClockMode) -> (r: Option<Self>)
        ensures
            hse_frequency_ok(freq as int) ==> r == Some((HSEClock { freq, mode })),
            !hse_frequency_ok(freq as int) ==> r is None,
    {
        if Self::frequency_in_range(freq) {
            Some(Self::new(freq, mode))
        } else {
            None
        }
    }
}

} // verus!
