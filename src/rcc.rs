//! Reset and clock control configuration.
use vstd::prelude::*;

verus! {

/// Source of the system clock.
#[derive(Clone, Copy, Debug, PartialEq, Eq, Structural)]
pub enum ClockSource {
    /// Internal high-speed oscillator.
    Hsi,
    /// External high-speed oscillator.
    Hse,
    /// Phase-locked loop.
    Pll,
}

/// Reset and Clock Control (RCC) configuration.
pub struct Config {
    pub sys: ClockSource,
}

impl Config {
    /// The configuration that runs the system from the internal oscillator.
    pub fn new() -> (r: Self)
        ensures
            r.sys == ClockSource::Hsi,
    {
        Config { sys: ClockSource::Hsi }
    }
}

impl Default for Config {
    fn default() -> (r: Self)
        ensures
            r.sys == ClockSource::Hsi,
    {
        Self::new()
    }
}

} // verus!
