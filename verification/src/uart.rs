//! The UART: pin routing, baud-rate setup from the module clock, and a
//! transmit path whose register block keeps a log of every byte sent.
//!
//! The baud divisor has three parts: the high five bits of the divisor in one
//! register, its low eight bits in a second, and a five-bit fine adjust in a
//! third, so that the transmit baud is `module clock / (16 * (divisor +
//! fine_adjust / 32))`.

use vstd::prelude::*;
use vstd::pervasive::unreached;
use vstd::string::StringSliceAdditionalSpecFns;
use crate::bits::{bit8, get_bit8, with_bit32, with_bits32, set_bit32};
use crate::port::{Pin, pin_location, pcr_mux};
use crate::sim::Sim;
use crate::CurrentFrequency;

verus! {

/// The three UART modules whose pins the board brings out.
#[allow(non_camel_case_types)]
#[derive(Clone, Copy, PartialEq, Eq, Structural, Debug)]
pub enum Available_UART {
    UART0,
    UART1,
    UART2,
}

/// The board pad that carries a module's receive line.
pub open spec fn uart_rx_pad(num: Available_UART) -> usize {
    match num {
        Available_UART::UART0 => 0,
        Available_UART::UART1 => 9,
        Available_UART::UART2 => 7,
    }
}

/// The board pad that carries a module's transmit line.
pub open spec fn uart_tx_pad(num: Available_UART) -> usize {
    match num {
        Available_UART::UART0 => 1,
        Available_UART::UART1 => 10,
        Available_UART::UART2 => 8,
    }
}

/// Bit position of a module's clock gate in the fourth gating register.
pub open spec fn uart_gate_bit(num: Available_UART) -> u32 {
    match num {
        Available_UART::UART0 => 10,
        Available_UART::UART1 => 11,
        Available_UART::UART2 => 12,
    }
}

/// The whole-number part of the baud divisor: the module clock over sixteen
/// times the baud rate.
pub open spec fn uart_divisor(f: u32, baud: u32) -> int {
    f as int / (16 * baud)
}

/// The fine adjust: what is left of `2 * clock / baud` once the whole divisor
/// is taken out, in 1/32 steps; always in `0..32`.
pub open spec fn uart_fine_adjust(f: u32, baud: u32) -> int {
    2 * f / (baud as int) - 32 * uart_divisor(f, baud)
}

/// The pin-function code that routes a pad to its UART.
pub const UART_FUNCTION: u32 = 3;

/// One UART module: its identity, the two pads routed to it, the registers
/// this crate programs, and the log of every byte handed to the transmitter.
pub struct UART {
    pub which: Available_UART,
    pub rx: Pin,
    pub tx: Pin,
    pub bdh: u8,
    pub bdl: u8,
    pub c1: u8,
    pub c2: u8,
    pub c4: u8,
    pub s1: u8,
    pub d: u8,
    pub sent: Vec<u8>,
}

impl UART {
    /// The transmitter reports both data-register-empty and
    /// transmission-complete, as an idle transmitter does.
    pub open spec fn idle(self) -> bool {
        bit8(self.s1, 7) && bit8(self.s1, 6)
    }

    /// Claim a module: route its two pads to the UART function and hand back
    /// the module with its registers at reset and an idle transmitter.
    pub fn new(num: Available_UART) -> (r: UART)
        ensures
            r.which == num,
            r.rx.port == pin_location(uart_rx_pad(num)).0,
            r.rx.pin == pin_location(uart_rx_pad(num)).1,
            r.rx.pcr == with_bits32(0, 8, 11, UART_FUNCTION),
            pcr_mux(r.rx.pcr) == UART_FUNCTION,
            r.tx.port == pin_location(uart_tx_pad(num)).0,
            r.tx.pin == pin_location(uart_tx_pad(num)).1,
            r.tx.pcr == with_bits32(0, 8, 11, UART_FUNCTION),
            pcr_mux(r.tx.pcr) == UART_FUNCTION,
            r.bdh == 0 && r.bdl == 0 && r.c1 == 0 && r.c2 == 0 && r.c4 == 0,
            r.s1 == 0xC0,
            r.d == 0,
            r.sent@ == Seq::<u8>::empty(),
            r.idle(),
    {
        proof {
            assert(UART_FUNCTION & 7u32 == UART_FUNCTION && bit8(0xC0u8, 7) && bit8(0xC0u8, 6))
                by (bit_vector);
        }
        let (rx_pad, tx_pad): (usize, usize) = match num {
            Available_UART::UART0 => (0, 1),
            Available_UART::UART1 => (9, 10),
            Available_UART::UART2 => (7, 8),
        };
        let mut rx = match Pin::new(rx_pad) {
            Ok(p) => p,
            Err(_) => unreached(),
        };
        let mut tx = match Pin::new(tx_pad) {
            Ok(p) => p,
            Err(_) => unreached(),
        };
        rx.set_pin_mode(UART_FUNCTION);
        tx.set_pin_mode(UART_FUNCTION);
        UART {
            which: num,
            rx,
            tx,
            bdh: 0,
            bdl: 0,
            c1: 0,
            c2: 0,
            c4: 0,
            s1: 0xC0,
            d: 0,
            sent: Vec::new(),
        }
    }

    /// Which module this is.
    pub fn name(&self) -> (r: Available_UART)
        ensures
            r == self.which,
    {
        self.which
    }

    /// Open the module's clock gate and program it for 8-bit frames with no
    /// parity at the given baud rate: the divisor's high bits, its low bits
    /// and the fine adjust land in their three registers, and the
    /// transmitter is enabled.
    pub fn setup(&mut self, sim: &mut Sim, baud: u32, freq: &CurrentFrequency)
        requires
            1 <= baud <= 0x0FFF_FFFF,
            freq.hz <= 0x7FFF_FFFF,
        ensures
            final(sim).scgc4 == with_bit32(old(sim).scgc4, uart_gate_bit(old(self).which), true),
            *final(sim) == (Sim { scgc4: final(sim).scgc4, ..*old(sim) }),
            final(self).c1 == 0,
            final(self).bdh == (uart_divisor(freq.hz, baud) / 256) % 32,
            final(self).bdl == uart_divisor(freq.hz, baud) % 256,
            final(self).c4 == uart_fine_adjust(freq.hz, baud),
            final(self).c2 == 0x08,
            *final(self) == (UART {
                bdh: final(self).bdh,
                bdl: final(self).bdl,
                c1: 0,
                c2: 0x08,
                c4: final(self).c4,
                ..*old(self)
            }),
    {
        // Open the peripheral clock gate for this module.
        match self.which {
            Available_UART::UART0 => {
                sim.scgc4 = set_bit32(sim.scgc4, 10, true);
            },
            Available_UART::UART1 => {
                sim.scgc4 = set_bit32(sim.scgc4, 11, true);
            },
            Available_UART::UART2 => {
                sim.scgc4 = set_bit32(sim.scgc4, 12, true);
            },
        }
        // 8-bit frames, no parity.
        self.c1 = 0;
        let f = freq.hz;
        proof {
            lemma_uart_divisor_bounds(f, baud);
        }
        let divisor = f / (baud * 16);
        let brfa = ((2 * f) / baud - divisor * 32) as u8;
        proof {
            let d = divisor;
            let b = brfa;
            assert(((d >> 8u32) as u8 & 0x1F) == ((d / 256) % 32) as u8 && (d as u8 & 0xFF) == (d
                % 256) as u8 && (b < 32 ==> (b & 0x1F) == b)) by (bit_vector);
        }
        self.bdh = (divisor >> 8u32) as u8 & 0x1F;
        self.bdl = divisor as u8 & 0xFF;
        self.c4 = brfa & 0x1F;
        // Enable the transmitter.
        self.c2 = 0x08;
    }

    /// Hand one byte to the transmitter: block until the data register is
    /// free, then write the byte, which the model appends to the log.
    pub fn write_byte(&mut self, b: u8)
        requires
            bit8(old(self).s1, 7),
        ensures
            final(self).d == b,
            final(self).sent@ == old(self).sent@.push(b),
            *final(self) == (UART { d: b, sent: final(self).sent, ..*old(self) }),
    {
        // The data-register-empty bit is bit 7 of the status register.
        while !get_bit8(self.s1, 7)
            invariant
                bit8(self.s1, 7),
            decreases 0int,
        {
        }
        self.d = b;
        self.sent.push(b);
    }

    /// Send every byte of `s` in order, then block until the transmitter
    /// reports the last frame complete.
    pub fn write_str(&mut self, s: &str)
        requires
            old(self).idle(),
        ensures
            final(self).sent@ == old(self).sent@ + s.spec_bytes(),
            final(self).d == (if s.spec_bytes().len() == 0 {
                old(self).d
            } else {
                s.spec_bytes().last()
            }),
            *final(self) == (UART { d: final(self).d, sent: final(self).sent, ..*old(self) }),
    {
        let bytes = s.as_bytes();
        let mut i: usize = 0;
        while i < bytes.len()
            invariant
                i <= bytes.len(),
                bytes@ == s.spec_bytes(),
                bit8(self.s1, 7),
                bit8(self.s1, 6),
                self.sent@ == old(self).sent@ + bytes@.subrange(0, i as int),
                self.d == (if i == 0 {
                    old(self).d
                } else {
                    bytes@[i as int - 1]
                }),
                *self == (UART { d: self.d, sent: self.sent, ..*old(self) }),
            decreases bytes.len() - i,
        {
            let b = bytes[i];
            self.write_byte(b);
            i = i + 1;
            proof {
                assert(bytes@.subrange(0, i as int) =~= bytes@.subrange(0, i - 1).push(b));
            }
        }
        proof {
            assert(bytes@.subrange(0, bytes@.len() as int) =~= bytes@);
        }
        // Wait for transmission-complete, bit 6 of the status register.
        while !get_bit8(self.s1, 6)
            invariant
                bit8(self.s1, 6),
            decreases 0int,
        {
        }
    }
}

/// The fine adjust never underflows and always fits its five-bit field: what
/// is left of `2f / baud` after `32 * (f / (16 baud))` is exactly `2r / baud`
/// for the remainder `r` of `f / (16 baud)`, which sits in `0..32`.
pub proof fn lemma_uart_divisor_bounds(f: u32, baud: u32)
    requires
        1 <= baud,
        f <= 0x7FFF_FFFF,
    ensures
        0 <= uart_divisor(f, baud) < 0x800_0000,
        0 <= uart_fine_adjust(f, baud) < 32,
{
    let fi = f as int;
    let b = baud as int;
    let d = 16 * b;
    let q = fi / d;
    let r = fi % d;
    vstd::arithmetic::div_mod::lemma_fundamental_div_mod(fi, d);
    vstd::arithmetic::div_mod::lemma_mod_bound(fi, d);
    vstd::arithmetic::div_mod::lemma_div_pos_is_pos(fi, d);
    // The divisor is below 2^27 because f is below 2^31 = 2^27 * 16.
    vstd::arithmetic::div_mod::lemma_div_is_ordered_by_denominator(fi, 16, d);
    vstd::arithmetic::div_mod::lemma_multiply_divide_lt(fi, 16, 0x800_0000);
    // 2f == 2r + (32q) * b, so dividing by b leaves 32q + (2r)/b.
    assert(2 * (d * q) == (32 * q) * b) by {
        vstd::arithmetic::mul::lemma_mul_is_associative(2, d, q);
        assert((2 * d) * q == (32 * b) * q);
        vstd::arithmetic::mul::lemma_mul_is_associative(32, b, q);
        vstd::arithmetic::mul::lemma_mul_is_associative(32, q, b);
        vstd::arithmetic::mul::lemma_mul_is_commutative(b, q);
    }
    vstd::arithmetic::div_mod::lemma_hoist_over_denominator(2 * r, 32 * q, b as nat);
    assert(2 * r + (32 * q) * b == 2 * fi);
    assert(2 * fi / b == (2 * r) / b + 32 * q);
    vstd::arithmetic::div_mod::lemma_div_pos_is_pos(2 * r, b);
    assert(2 * r < b * 32);
    vstd::arithmetic::div_mod::lemma_multiply_divide_lt(2 * r, b, 32);
}

} // verus!
