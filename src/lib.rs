//! Verified flash programming algorithm for the AG32 RISC-V microcontroller.
//!
//! The library holds the algorithm controller (unlock, erase, program,
//! verify and blank check) over a checked model of the flash array, the
//! register-level protocol words it issues, and the chunking of page writes
//! into bulk transfers.
use vstd::prelude::*;

pub mod algorithm;
pub mod compare;
pub mod descriptor;
pub mod device;
pub mod error;
pub mod flex_read;
pub mod laws;
pub mod rcc;
pub mod session;
pub mod transfer;

verus! {

/// Configuration of the HAL at start-up.
pub struct Config {
    pub rcc: rcc::Config,
}

impl Default for Config {
    fn default() -> (r: Self)
        ensures
            r.rcc.sys == rcc::ClockSource::Hsi,
    {
        Config { rcc: rcc::Config::new() }
    }
}

} // verus!
