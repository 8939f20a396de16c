//! Hardware abstraction layer for a Cortex-M microcontroller, built around an
//! explicit model of the memory-mapped register blocks: the clock generator's
//! mode state machine, the system integration module's clock gates and
//! dividers, and the port/pin/GPIO ownership discipline with bit-band
//! single-bit writes.

pub mod bits;
pub mod boot;
pub mod gpio;
pub mod mcg;
pub mod port;
pub mod sim;
pub mod sleep;
pub mod uart;
pub mod usb_serial;
pub mod watchdog;

use vstd::prelude::*;

verus! {

/// The process-wide core frequency: written only by the clock-tree
/// transitions, read by the timing utilities, and handed around explicitly
/// instead of living in a global.
pub struct CurrentFrequency {
    pub hz: u32,
}

impl CurrentFrequency {
    /// The value the rest of the crate assumes until a clock transition
    /// stores something else: the full-speed 72 MHz configuration.
    pub fn new() -> (r: CurrentFrequency)
        ensures
            r.hz == 72_000_000,
    {
        CurrentFrequency { hz: 72_000_000 }
    }
}

} // verus!
