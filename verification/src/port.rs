//! Ports and pins: each named port owns 32 pin-control registers, a pin is
//! one (port, index) pair carrying its own control register, and the board's
//! numbered pins map to (port, index) pairs through a fixed table.
//!
//! A pin is handed out by `Port::pin` at most once, and `make_gpio` consumes
//! the pin, so no two call sites can configure the same physical pin through
//! different handles.

use vstd::prelude::*;
use crate::bits::{bits32, with_bit32, with_bits32, set_bit32, set_bits32};
use crate::gpio::{Gpio, Uninitialized};

verus! {

/// The five pin ports of the chip.
#[derive(Clone, Copy, PartialEq, Eq, Structural, Debug)]
pub enum PortName {
    A,
    B,
    C,
    D,
    E,
}

/// A bad pin number: a defect in the caller, never a transient condition.
#[derive(Clone, Copy, PartialEq, Eq, Structural, Debug)]
pub enum PinError {
    InvalidPinNumber,
}

/// The pin-function code that routes a pin to the GPIO module.
pub const GPIO_FUNCTION: u32 = 1;

/// The function-select field of a pin-control register, bits 8..11.
pub open spec fn pcr_mux(pcr: u32) -> u32 {
    bits32(pcr, 8, 11)
}

/// One port's register block: 32 pin-control registers, plus the record of
/// which pins have already been handed out.
pub struct Port {
    pub name: PortName,
    pub pcr: Vec<u32>,
    pub taken: Vec<bool>,
}

impl Port {
    /// One control register and one hand-out mark per pin.
    pub open spec fn wf(self) -> bool {
        self.pcr.len() == 32 && self.taken.len() == 32
    }

    /// The named port with every control register at its reset value and no
    /// pin handed out yet.
    pub fn new(name: PortName) -> (r: Port)
        ensures
            r.wf(),
            r.name == name,
            forall|i: int| 0 <= i < 32 ==> r.pcr[i] == 0,
            forall|i: int| 0 <= i < 32 ==> r.taken[i] == false,
    {
        let mut pcr: Vec<u32> = Vec::new();
        let mut taken: Vec<bool> = Vec::new();
        let mut i: usize = 0;
        while i < 32
            invariant
                i <= 32,
                pcr.len() == i,
                taken.len() == i,
                forall|j: int| 0 <= j < i ==> pcr[j] == 0,
                forall|j: int| 0 <= j < i ==> taken[j] == false,
            decreases 32 - i,
        {
            pcr.push(0);
            taken.push(false);
            i = i + 1;
        }
        Port { name, pcr, taken }
    }

    /// Program the function-select field of pin `p`'s control register; the
    /// low three bits of `mode` pick the function and every other field of
    /// the register keeps its value.
    pub fn set_pin_mode(&mut self, p: usize, mode: u32)
        requires
            old(self).wf(),
            p < 32,
        ensures
            final(self).wf(),
            final(self).pcr@ == old(self).pcr@.update(
                p as int,
                with_bits32(old(self).pcr[p as int], 8, 11, mode & 7),
            ),
            pcr_mux(final(self).pcr[p as int]) == mode & 7,
            final(self).name == old(self).name,
            final(self).taken == old(self).taken,
    {
        proof {
            vstd::arithmetic::power2::lemma2_to64();
            assert(mode & 7u32 < 8) by (bit_vector);
        }
        let v = set_bits32(self.pcr[p], 8, 11, mode & 7);
        self.pcr.set(p, v);
        proof {
            let o = old(self).pcr[p as int];
            assert(bits32(with_bits32(o, 8, 11, mode & 7u32), 8, 11) == (mode & 7u32))
                by (bit_vector);
        }
    }

    /// Set or clear the pull-enable bit of pin `p`'s control register.
    pub fn set_pin_pe(&mut self, p: usize, mode: bool)
        requires
            old(self).wf(),
            p < 32,
        ensures
            final(self).wf(),
            final(self).pcr@ == old(self).pcr@.update(
                p as int,
                with_bit32(old(self).pcr[p as int], 1, mode),
            ),
            final(self).name == old(self).name,
            final(self).taken == old(self).taken,
    {
        let v = set_bit32(self.pcr[p], 1, mode);
        self.pcr.set(p, v);
    }

    /// Set or clear the pull-select bit of pin `p`'s control register: up
    /// when set, down when clear, effective while pull is enabled.
    pub fn set_pin_ps(&mut self, p: usize, mode: bool)
        requires
            old(self).wf(),
            p < 32,
        ensures
            final(self).wf(),
            final(self).pcr@ == old(self).pcr@.update(
                p as int,
                with_bit32(old(self).pcr[p as int], 0, mode),
            ),
            final(self).name == old(self).name,
            final(self).taken == old(self).taken,
    {
        let v = set_bit32(self.pcr[p], 0, mode);
        self.pcr.set(p, v);
    }

    /// The name this port was created with.
    pub fn name(&self) -> (r: PortName)
        ensures
            r == self.name,
    {
        self.name
    }

    /// Hand out pin `p`: the pin takes the register's current value with it,
    /// and the port remembers that the pin is gone, so the same index cannot
    /// be handed out twice.
    pub fn pin(&mut self, p: usize) -> (r: Pin)
        requires
            old(self).wf(),
            p < 32,
            !old(self).taken[p as int],
        ensures
            final(self).wf(),
            final(self).taken@ == old(self).taken@.update(p as int, true),
            final(self).pcr == old(self).pcr,
            final(self).name == old(self).name,
            r == (Pin { port: old(self).name, pin: p, pcr: old(self).pcr[p as int] }),
            r.wf(),
    {
        self.taken.set(p, true);
        Pin { port: self.name, pin: p, pcr: self.pcr[p] }
    }
}

/// One pin: its port, its index there, and its pin-control register.
pub struct Pin {
    pub port: PortName,
    pub pin: usize,
    pub pcr: u32,
}

/// The board's pin table: which (port, index) pair each of the 34 numbered
/// pads reaches.
pub open spec fn pin_location(number: usize) -> (PortName, usize) {
    match number {
        0 => (PortName::B, 16),
        1 => (PortName::B, 17),
        2 => (PortName::D, 0),
        3 => (PortName::A, 12),
        4 => (PortName::A, 13),
        5 => (PortName::D, 7),
        6 => (PortName::D, 4),
        7 => (PortName::D, 2),
        8 => (PortName::D, 3),
        9 => (PortName::C, 3),
        10 => (PortName::C, 4),
        11 => (PortName::C, 6),
        12 => (PortName::C, 7),
        13 => (PortName::C, 5),
        14 => (PortName::D, 1),
        15 => (PortName::C, 0),
        16 => (PortName::B, 0),
        17 => (PortName::B, 1),
        18 => (PortName::B, 3),
        19 => (PortName::B, 2),
        20 => (PortName::D, 5),
        21 => (PortName::D, 6),
        22 => (PortName::C, 1),
        23 => (PortName::C, 2),
        24 => (PortName::A, 5),
        25 => (PortName::B, 19),
        26 => (PortName::E, 1),
        27 => (PortName::C, 9),
        28 => (PortName::C, 8),
        29 => (PortName::C, 10),
        30 => (PortName::C, 11),
        31 => (PortName::E, 0),
        32 => (PortName::B, 18),
        33 => (PortName::A, 4),
        _ => (PortName::A, 0),
    }
}

impl Pin {
    /// The index stays on the port.
    pub open spec fn wf(self) -> bool {
        self.pin < 32
    }

    /// Look a numbered pad up in the board table; a number past the table is
    /// a programming error. The pin carries its register's reset value.
    pub fn new(number: usize) -> (r: Result<Pin, PinError>)
        ensures
            (match r {
                Ok(p) => {
                    &&& number <= 33
                    &&& p.port == pin_location(number).0
                    &&& p.pin == pin_location(number).1
                    &&& p.pcr == 0
                    &&& p.wf()
                },
                Err(e) => number > 33 && e == PinError::InvalidPinNumber,
            }),
    {
        let loc: (PortName, usize) = match number {
            0 => (PortName::B, 16),
            1 => (PortName::B, 17),
            2 => (PortName::D, 0),
            3 => (PortName::A, 12),
            4 => (PortName::A, 13),
            5 => (PortName::D, 7),
            6 => (PortName::D, 4),
            7 => (PortName::D, 2),
            8 => (PortName::D, 3),
            9 => (PortName::C, 3),
            10 => (PortName::C, 4),
            11 => (PortName::C, 6),
            12 => (PortName::C, 7),
            13 => (PortName::C, 5),
            14 => (PortName::D, 1),
            15 => (PortName::C, 0),
            16 => (PortName::B, 0),
            17 => (PortName::B, 1),
            18 => (PortName::B, 3),
            19 => (PortName::B, 2),
            20 => (PortName::D, 5),
            21 => (PortName::D, 6),
            22 => (PortName::C, 1),
            23 => (PortName::C, 2),
            24 => (PortName::A, 5),
            25 => (PortName::B, 19),
            26 => (PortName::E, 1),
            27 => (PortName::C, 9),
            28 => (PortName::C, 8),
            29 => (PortName::C, 10),
            30 => (PortName::C, 11),
            31 => (PortName::E, 0),
            32 => (PortName::B, 18),
            33 => (PortName::A, 4),
            _ => {
                return Err(PinError::InvalidPinNumber);
            },
        };
        Ok(Pin { port: loc.0, pin: loc.1, pcr: 0 })
    }

    /// Program the function-select field; the low three bits of `mode` pick
    /// the function and every other field keeps its value.
    pub fn set_pin_mode(&mut self, mode: u32)
        ensures
            final(self).pcr == with_bits32(old(self).pcr, 8, 11, mode & 7),
            pcr_mux(final(self).pcr) == mode & 7,
            final(self).port == old(self).port,
            final(self).pin == old(self).pin,
    {
        proof {
            vstd::arithmetic::power2::lemma2_to64();
            let o = self.pcr;
            assert(mode & 7u32 < 8 && bits32(with_bits32(o, 8, 11, mode & 7u32), 8, 11) == (mode
                & 7u32)) by (bit_vector);
        }
        self.pcr = set_bits32(self.pcr, 8, 11, mode & 7);
    }

    /// `set_pin_mode`, consuming and returning the pin.
    pub fn with_pin_mode(self, mode: u32) -> (r: Pin)
        ensures
            r == (Pin { pcr: with_bits32(self.pcr, 8, 11, mode & 7), ..self }),
    {
        let mut p = self;
        p.set_pin_mode(mode);
        p
    }

    /// Set or clear the pull-select bit: pull up when set, pull down when
    /// clear, effective while pull is enabled.
    pub fn set_pin_ps(&mut self, mode: bool)
        ensures
            *final(self) == (Pin { pcr: with_bit32(old(self).pcr, 0, mode), ..*old(self) }),
    {
        self.pcr = set_bit32(self.pcr, 0, mode);
    }

    /// `set_pin_ps`, consuming and returning the pin.
    pub fn with_pin_ps(self, mode: bool) -> (r: Pin)
        ensures
            r == (Pin { pcr: with_bit32(self.pcr, 0, mode), ..self }),
    {
        let mut p = self;
        p.set_pin_ps(mode);
        p
    }

    /// Set or clear the pull-enable bit.
    pub fn set_pin_pe(&mut self, mode: bool)
        ensures
            *final(self) == (Pin { pcr: with_bit32(old(self).pcr, 1, mode), ..*old(self) }),
    {
        self.pcr = set_bit32(self.pcr, 1, mode);
    }

    /// `set_pin_pe`, consuming and returning the pin.
    pub fn with_pin_pe(self, mode: bool) -> (r: Pin)
        ensures
            r == (Pin { pcr: with_bit32(self.pcr, 1, mode), ..self }),
    {
        let mut p = self;
        p.set_pin_pe(mode);
        p
    }

    /// Set or clear the slew-rate bit: slow when set, fast when clear,
    /// effective while the pin is a digital output.
    pub fn set_pin_sre(&mut self, mode: bool)
        ensures
            *final(self) == (Pin { pcr: with_bit32(old(self).pcr, 2, mode), ..*old(self) }),
    {
        self.pcr = set_bit32(self.pcr, 2, mode);
    }

    /// `set_pin_sre`, consuming and returning the pin.
    pub fn with_pin_sre(self, mode: bool) -> (r: Pin)
        ensures
            r == (Pin { pcr: with_bit32(self.pcr, 2, mode), ..self }),
    {
        let mut p = self;
        p.set_pin_sre(mode);
        p
    }

    /// Set or clear the passive-filter bit, effective while the pin is a
    /// digital input.
    pub fn set_pin_pfe(&mut self, mode: bool)
        ensures
            *final(self) == (Pin { pcr: with_bit32(old(self).pcr, 4, mode), ..*old(self) }),
    {
        self.pcr = set_bit32(self.pcr, 4, mode);
    }

    /// `set_pin_pfe`, consuming and returning the pin.
    pub fn with_pin_pfe(self, mode: bool) -> (r: Pin)
        ensures
            r == (Pin { pcr: with_bit32(self.pcr, 4, mode), ..self }),
    {
        let mut p = self;
        p.set_pin_pfe(mode);
        p
    }

    /// Set or clear the open-drain bit, effective while the pin is a digital
    /// output.
    pub fn set_pin_ode(&mut self, mode: bool)
        ensures
            *final(self) == (Pin { pcr: with_bit32(old(self).pcr, 5, mode), ..*old(self) }),
    {
        self.pcr = set_bit32(self.pcr, 5, mode);
    }

    /// `set_pin_ode`, consuming and returning the pin.
    pub fn with_pin_ode(self, mode: bool) -> (r: Pin)
        ensures
            r == (Pin { pcr: with_bit32(self.pcr, 5, mode), ..self }),
    {
        let mut p = self;
        p.set_pin_ode(mode);
        p
    }

    /// Set or clear the drive-strength bit: high drive when set, effective
    /// while the pin is a digital output.
    pub fn set_pin_dse(&mut self, mode: bool)
        ensures
            *final(self) == (Pin { pcr: with_bit32(old(self).pcr, 6, mode), ..*old(self) }),
    {
        self.pcr = set_bit32(self.pcr, 6, mode);
    }

    /// `set_pin_dse`, consuming and returning the pin.
    pub fn with_pin_dse(self, mode: bool) -> (r: Pin)
        ensures
            r == (Pin { pcr: with_bit32(self.pcr, 6, mode), ..self }),
    {
        let mut p = self;
        p.set_pin_dse(mode);
        p
    }

    /// Route the pin to the GPIO module and consume it into a GPIO handle
    /// for the same (port, index). The pin is gone afterwards, so no second
    /// handle to the same pad can be made through this path.
    pub fn make_gpio(self) -> (r: Gpio<Uninitialized>)
        requires
            self.wf(),
        ensures
            r.port == self.port,
            r.pin == self.pin,
            r.pcr == with_bits32(self.pcr, 8, 11, GPIO_FUNCTION),
            pcr_mux(r.pcr) == GPIO_FUNCTION,
            r.wf(),
    {
        proof {
            assert(GPIO_FUNCTION & 7u32 == GPIO_FUNCTION) by (bit_vector);
        }
        let mut p = self;
        p.set_pin_mode(GPIO_FUNCTION);
        let mut g = Gpio::<Uninitialized>::new(p.port, p.pin);
        g.pcr = p.pcr;
        g
    }
}

} // verus!
