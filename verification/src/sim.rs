//! The system integration module: per-peripheral clock gates and the
//! core/bus/flash clock dividers, modelled as an owned register block.

use vstd::prelude::*;
use crate::bits::{with_bit32, with_bits32, set_bit32, set_bits32};

verus! {

/// A peripheral whose clock gate this crate opens.
#[derive(Clone, Copy, PartialEq, Eq, Structural, Debug)]
pub enum Clock {
    PortA,
    PortB,
    PortC,
    PortD,
    PortE,
}

/// Bit position of a peripheral's gate in the fifth clock-gating register.
pub open spec fn gate_bit(c: Clock) -> u32 {
    match c {
        Clock::PortA => 9,
        Clock::PortB => 10,
        Clock::PortC => 11,
        Clock::PortD => 12,
        Clock::PortE => 13,
    }
}

/// The divider register's value for a core/bus/flash divider triple; the
/// hardware stores each divider as one less than its value, the core field at
/// bits 28..32, the bus field at bits 24..28 and the flash field at bits
/// 16..20.
pub open spec fn clkdiv_encoding(core: u32, bus: u32, flash: u32) -> u32 {
    ((((core - 1) as u32) << 28) | (((bus - 1) as u32) << 24)) | (((flash - 1) as u32) << 16)
}

/// The system integration module's register block: the seven clock-gating
/// control registers and the first clock-divider register.
pub struct Sim {
    pub scgc1: u32,
    pub scgc2: u32,
    pub scgc3: u32,
    pub scgc4: u32,
    pub scgc5: u32,
    pub scgc6: u32,
    pub scgc7: u32,
    pub clkdiv1: u32,
}

impl Sim {
    /// A block with every gate closed and the dividers cleared.
    pub fn new() -> (r: Sim)
        ensures
            r == (Sim {
                scgc1: 0,
                scgc2: 0,
                scgc3: 0,
                scgc4: 0,
                scgc5: 0,
                scgc6: 0,
                scgc7: 0,
                clkdiv1: 0,
            }),
    {
        Sim { scgc1: 0, scgc2: 0, scgc3: 0, scgc4: 0, scgc5: 0, scgc6: 0, scgc7: 0, clkdiv1: 0 }
    }

    /// Open one peripheral's clock gate; every other bit of the block is left
    /// as it was.
    pub fn enable_clock(&mut self, clock: Clock)
        ensures
            final(self).scgc5 == with_bit32(old(self).scgc5, gate_bit(clock), true),
            *final(self) == (Sim { scgc5: final(self).scgc5, ..*old(self) }),
    {
        match clock {
            Clock::PortA => {
                self.scgc5 = set_bit32(self.scgc5, 9, true);
            }
            Clock::PortB => {
                self.scgc5 = set_bit32(self.scgc5, 10, true);
            }
            Clock::PortC => {
                self.scgc5 = set_bit32(self.scgc5, 11, true);
            }
            Clock::PortD => {
                self.scgc5 = set_bit32(self.scgc5, 12, true);
            }
            Clock::PortE => {
                self.scgc5 = set_bit32(self.scgc5, 13, true);
            }
        }
    }

    /// Program the core, bus and flash dividers; each divider is stored as
    /// one less than its value, and the whole register is rewritten.
    pub fn set_dividers(&mut self, core: u32, bus: u32, flash: u32)
        requires
            1 <= core <= 16,
            1 <= bus <= 16,
            1 <= flash <= 16,
        ensures
            final(self).clkdiv1 == clkdiv_encoding(core, bus, flash),
            *final(self) == (Sim { clkdiv1: final(self).clkdiv1, ..*old(self) }),
    {
        proof {
            vstd::arithmetic::power2::lemma2_to64();
        }
        let mut clkdiv: u32 = 0;
        clkdiv = set_bits32(clkdiv, 28, 32, core - 1);
        clkdiv = set_bits32(clkdiv, 24, 28, bus - 1);
        clkdiv = set_bits32(clkdiv, 16, 20, flash - 1);
        proof {
            let c = (core - 1) as u32;
            let b = (bus - 1) as u32;
            let f = (flash - 1) as u32;
            assert(with_bits32(with_bits32(with_bits32(0u32, 28, 32, c), 24, 28, b), 16, 20, f)
                == ((c << 28) | (b << 24)) | (f << 16)) by (bit_vector)
                requires
                    c < 16,
                    b < 16,
                    f < 16,
            ;
        }
        self.clkdiv1 = clkdiv;
    }
}

} // verus!
