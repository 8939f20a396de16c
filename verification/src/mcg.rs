//! The multipurpose clock generator: a typestate machine over an owned model
//! of the generator's register block.
//!
//! Each clock mode is its own type exposing only the transitions that are
//! legal from it, and a transition consumes the old mode, so at most one live
//! handle to the generator exists at a time. The status register is simulated:
//! it settles to a value that is a pure function of the control registers, and
//! it moves only in response to the documented control writes, which is
//! exactly the handshake the hardware promises.

use vstd::prelude::*;
use vstd::pervasive::unreached;
use crate::bits::{
    bit8, bits8, with_bit8, with_bits8, get_bit8, get_bits8, set_bit8, set_bits8,
};
use crate::sim::{Sim, clkdiv_encoding};
use crate::CurrentFrequency;

verus! {

/// Clock-source-select encoding for the loop output.
pub const SRC_LOCKED_LOOP: u8 = 0;

/// Clock-source-select encoding for the external reference.
pub const SRC_EXTERNAL: u8 = 2;

// --- control and status register fields -------------------------------------

/// Clock-source select, control register 1, bits 6..8.
pub open spec fn c1_clks(c1: u8) -> u8 {
    bits8(c1, 6, 8)
}

/// External-reference divider field, control register 1, bits 3..6.
pub open spec fn c1_frdiv(c1: u8) -> u8 {
    bits8(c1, 3, 6)
}

/// FLL-reference-is-internal bit, control register 1, bit 2.
pub open spec fn c1_irefs(c1: u8) -> bool {
    bit8(c1, 2)
}

/// Oscillator frequency-range field, control register 2, bits 4..6.
pub open spec fn c2_range(c2: u8) -> u8 {
    bits8(c2, 4, 6)
}

/// Oscillator-enable bit, control register 2, bit 2.
pub open spec fn c2_erefs(c2: u8) -> bool {
    bit8(c2, 2)
}

/// PLL reference-divide field, control register 5, bits 0..5; stored as one
/// less than the divider.
pub open spec fn c5_prdiv(c5: u8) -> u8 {
    bits8(c5, 0, 5)
}

/// PLL-select bit, control register 6, bit 6.
pub open spec fn c6_plls(c6: u8) -> bool {
    bit8(c6, 6)
}

/// PLL VCO-divide field, control register 6, bits 0..5; stored as the
/// multiplier less 24.
pub open spec fn c6_vdiv(c6: u8) -> u8 {
    bits8(c6, 0, 5)
}

/// Oscillator-ready status bit.
pub open spec fn s_oscinit(s: u8) -> bool {
    bit8(s, 1)
}

/// Clock-source status field, bits 2..4.
pub open spec fn s_clkst(s: u8) -> u8 {
    bits8(s, 2, 4)
}

/// FLL-routed-from-internal-reference status bit.
pub open spec fn s_irefst(s: u8) -> bool {
    bit8(s, 4)
}

/// PLL-selected status bit.
pub open spec fn s_pllst(s: u8) -> bool {
    bit8(s, 5)
}

/// PLL-locked status bit.
pub open spec fn s_lock(s: u8) -> bool {
    bit8(s, 6)
}

// --- the simulated hardware response -----------------------------------------

/// What the clock-source status field settles to for a control configuration:
/// selecting the loop output routes the PLL when the PLL is selected and the
/// FLL otherwise, and the status field tells the two apart.
pub open spec fn clkst_response(c1: u8, c6: u8) -> u8 {
    if c1_clks(c1) == 0 {
        if c6_plls(c6) {
            3
        } else {
            0
        }
    } else if c1_clks(c1) == 2 {
        2
    } else {
        1
    }
}

/// The settled value of the status register for a control configuration. The
/// simulated hardware moves the status register here in response to a control
/// write and nothing else moves it, so no third mode's signature can show up
/// between the signatures of the source and destination of a transition.
pub open spec fn status_response(c1: u8, c2: u8, c6: u8) -> u8 {
    ((if c2_erefs(c2) {
        2u8
    } else {
        0u8
    }) | (clkst_response(c1, c6) << 2u8) | (if c1_irefs(c1) {
        16u8
    } else {
        0u8
    })) | (if c6_plls(c6) {
        96u8
    } else {
        0u8
    })
}

/// The status fields read back exactly what the response encodes.
pub proof fn lemma_status_fields(c1: u8, c2: u8, c6: u8)
    ensures
        s_oscinit(status_response(c1, c2, c6)) == c2_erefs(c2),
        s_clkst(status_response(c1, c2, c6)) == clkst_response(c1, c6),
        s_irefst(status_response(c1, c2, c6)) == c1_irefs(c1),
        s_pllst(status_response(c1, c2, c6)) == c6_plls(c6),
        s_lock(status_response(c1, c2, c6)) == c6_plls(c6),
{
    assert(s_oscinit(status_response(c1, c2, c6)) == c2_erefs(c2)
        && s_clkst(status_response(c1, c2, c6)) == clkst_response(c1, c6)
        && s_irefst(status_response(c1, c2, c6)) == c1_irefs(c1)
        && s_pllst(status_response(c1, c2, c6)) == c6_plls(c6)
        && s_lock(status_response(c1, c2, c6)) == c6_plls(c6)) by (bit_vector);
}

// --- the register block ------------------------------------------------------

/// The clock generator's register block. Control registers hold what was last
/// written; the status register holds the simulated hardware's settled
/// response to them.
pub struct Mcg {
    pub c1: u8,
    pub c2: u8,
    pub c3: u8,
    pub c4: u8,
    pub c5: u8,
    pub c6: u8,
    pub s: u8,
    pub sc: u8,
    pub atcvh: u8,
    pub atcvl: u8,
    pub c7: u8,
    pub c8: u8,
}

impl Mcg {
    /// The status register has caught up with the control registers.
    pub open spec fn settled(self) -> bool {
        self.s == status_response(self.c1, self.c2, self.c6)
    }

    /// Control signature of the FLL-engaged-internal mode.
    pub open spec fn is_fei(self) -> bool {
        c1_irefs(self.c1) && !c6_plls(self.c6) && c1_clks(self.c1) == SRC_LOCKED_LOOP
    }

    /// Control signature of the FLL-bypassed-external mode.
    pub open spec fn is_fbe(self) -> bool {
        !c1_irefs(self.c1) && !c6_plls(self.c6) && c1_clks(self.c1) == SRC_EXTERNAL
    }

    /// Control signature of the PLL-bypassed-external mode.
    pub open spec fn is_pbe(self) -> bool {
        !c1_irefs(self.c1) && c6_plls(self.c6) && c1_clks(self.c1) == SRC_EXTERNAL
    }

    /// Control signature of the PLL-engaged-external mode.
    pub open spec fn is_pee(self) -> bool {
        !c1_irefs(self.c1) && c6_plls(self.c6) && c1_clks(self.c1) == SRC_LOCKED_LOOP
    }

    /// The probe recognizes the block: it is in one of the four modes this
    /// machine models.
    pub open spec fn recognized(self) -> bool {
        self.is_fei() || self.is_fbe() || self.is_pbe() || self.is_pee()
    }

    /// The block as it comes out of reset: internal reference selected, FLL
    /// engaged, oscillator and PLL off.
    pub fn new() -> (r: Mcg)
        ensures
            r == (Mcg {
                c1: 0x04,
                c2: 0,
                c3: 0,
                c4: 0,
                c5: 0,
                c6: 0,
                s: 0x10,
                sc: 0,
                atcvh: 0,
                atcvl: 0,
                c7: 0,
                c8: 0,
            }),
            r.settled(),
            r.is_fei(),
    {
        let r = Mcg {
            c1: 0x04,
            c2: 0,
            c3: 0,
            c4: 0,
            c5: 0,
            c6: 0,
            s: 0x10,
            sc: 0,
            atcvh: 0,
            atcvl: 0,
            c7: 0,
            c8: 0,
        };
        proof {
            assert(status_response(0x04u8, 0u8, 0u8) == 0x10u8 && c1_irefs(0x04u8)
                && !c6_plls(0u8) && c1_clks(0x04u8) == 0u8) by (bit_vector);
        }
        r
    }

    /// Let the simulated status register catch up with the control registers;
    /// this is the one place the status register moves.
    pub fn settle(&mut self)
        ensures
            *final(self) == (Mcg {
                s: status_response(old(self).c1, old(self).c2, old(self).c6),
                ..*old(self)
            }),
            final(self).settled(),
    {
        let clks = get_bits8(self.c1, 6, 8);
        let plls = get_bit8(self.c6, 6);
        let clkst: u8 = if clks == 0 {
            if plls {
                3
            } else {
                0
            }
        } else if clks == 2 {
            2
        } else {
            1
        };
        let osc: u8 = if get_bit8(self.c2, 2) {
            2
        } else {
            0
        };
        let iref: u8 = if get_bit8(self.c1, 2) {
            16
        } else {
            0
        };
        let pll: u8 = if plls {
            96
        } else {
            0
        };
        self.s = ((osc | (clkst << 2u8)) | iref) | pll;
    }
}

// --- status signatures of the four modes -------------------------------------

/// Status signature of the FLL-engaged-internal mode.
pub open spec fn fei_status(s: u8) -> bool {
    s_clkst(s) == SRC_LOCKED_LOOP && s_irefst(s) && !s_pllst(s)
}

/// Status signature of the FLL-bypassed-external mode.
pub open spec fn fbe_status(s: u8) -> bool {
    s_clkst(s) == SRC_EXTERNAL && !s_irefst(s) && !s_pllst(s)
}

/// Status signature of the PLL-bypassed-external mode.
pub open spec fn pbe_status(s: u8) -> bool {
    s_clkst(s) == SRC_EXTERNAL && s_pllst(s) && s_lock(s)
}

/// Status signature of the PLL-engaged-external mode: the clock-source status
/// reads the value reserved for the loop output fed by the PLL, which the
/// status field alone distinguishes from the FLL.
pub open spec fn pee_status(s: u8) -> bool {
    s_clkst(s) == 3 && s_pllst(s) && s_lock(s)
}

// --- parameters of the transitions -------------------------------------------

/// Frequency range of the external crystal.
#[derive(Clone, Copy, PartialEq, Eq, Structural, Debug)]
pub enum OscRange {
    Low,
    High,
    VeryHigh,
}

/// Encoding of the range field in control register 2.
pub open spec fn range_code(r: OscRange) -> u8 {
    match r {
        OscRange::Low => 0,
        OscRange::High => 1,
        OscRange::VeryHigh => 2,
    }
}

/// An invalid parameter or an unmodelled hardware state: a defect in the
/// caller, never a transient condition.
#[derive(Clone, Copy, PartialEq, Eq, Structural, Debug)]
pub enum McgError {
    InvalidClockDivider,
    InvalidPllNumerator,
    InvalidPllDenominator,
    UnrecognizedMode,
    NotInFeiMode,
}

/// The external-reference dividers the hardware offers: one enumerated set
/// for the low oscillator range and another for the higher ranges.
pub open spec fn valid_divide(low_range: bool, divide: u32) -> bool {
    if low_range {
        divide == 1 || divide == 2 || divide == 4 || divide == 8 || divide == 16 || divide == 32
            || divide == 64 || divide == 128
    } else {
        divide == 32 || divide == 64 || divide == 128 || divide == 256 || divide == 512
            || divide == 1024 || divide == 1280 || divide == 1536
    }
}

/// Encoding of a valid external-reference divider in the divider field.
pub open spec fn frdiv_code(low_range: bool, divide: u32) -> u8 {
    if low_range {
        if divide == 1 {
            0
        } else if divide == 2 {
            1
        } else if divide == 4 {
            2
        } else if divide == 8 {
            3
        } else if divide == 16 {
            4
        } else if divide == 32 {
            5
        } else if divide == 64 {
            6
        } else {
            7
        }
    } else {
        if divide == 32 {
            0
        } else if divide == 64 {
            1
        } else if divide == 128 {
            2
        } else if divide == 256 {
            3
        } else if divide == 512 {
            4
        } else if divide == 1024 {
            5
        } else if divide == 1280 {
            6
        } else {
            7
        }
    }
}

// --- the register block after each documented write --------------------------

/// The block after the oscillator write: range programmed, oscillator
/// enabled, status settled.
pub open spec fn xtal_enabled(m: Mcg, range: OscRange) -> Mcg {
    let c2 = with_bit8(with_bits8(m.c2, 4, 6, range_code(range)), 2, true);
    Mcg { c2, s: status_response(m.c1, c2, m.c6), ..m }
}

/// The block after the reference-select write: divider programmed, source
/// switched to the external reference, FLL reference external, status
/// settled.
pub open spec fn external_selected(m: Mcg, frdiv: u8) -> Mcg {
    let c1 = with_bit8(with_bits8(with_bits8(m.c1, 6, 8, SRC_EXTERNAL), 3, 6, frdiv), 2, false);
    Mcg { c1, s: status_response(c1, m.c2, m.c6), ..m }
}

/// The block after the PLL writes: divide factors programmed, PLL selected,
/// status settled.
pub open spec fn pll_enabled(m: Mcg, numerator: u8, denominator: u8) -> Mcg {
    let c5 = with_bits8(m.c5, 0, 5, (denominator - 1) as u8);
    let c6 = with_bit8(with_bits8(m.c6, 0, 5, (numerator - 24) as u8), 6, true);
    Mcg { c5, c6, s: status_response(m.c1, m.c2, c6), ..m }
}

/// The block after a clock-source-select write, with the status settled.
pub open spec fn source_selected(m: Mcg, src: u8) -> Mcg {
    let c1 = with_bits8(m.c1, 6, 8, src);
    Mcg { c1, s: status_response(c1, m.c2, m.c6), ..m }
}

/// The block after the PLL-deselect write, with the status settled.
pub open spec fn pll_deselected(m: Mcg) -> Mcg {
    let c6 = with_bit8(m.c6, 6, false);
    Mcg { c6, s: status_response(m.c1, m.c2, c6), ..m }
}

/// The block that normalizing down to the FLL-bypassed-external mode leaves
/// behind, for each recognized starting mode: from that mode itself nothing
/// moves; from the PLL modes the PLL is deselected (stepping through the
/// external reference first when it was engaged); from reset the very-fast
/// crystal is acquired and selected through the divider encoded as 4, the
/// fixed 512.
pub open spec fn normalized_to_fbe(m: Mcg) -> Mcg {
    if m.is_fbe() {
        m
    } else if m.is_pbe() {
        pll_deselected(m)
    } else if m.is_pee() {
        pll_deselected(source_selected(m, SRC_EXTERNAL))
    } else {
        external_selected(xtal_enabled(m, OscRange::VeryHigh), 4)
    }
}

// --- the four modes -----------------------------------------------------------

/// The FLL-engaged-internal mode: where the hardware wakes up.
pub struct Fei {
    pub mcg: Mcg,
}

/// The FLL-bypassed-external mode: running from the raw external reference.
pub struct Fbe {
    pub mcg: Mcg,
}

/// The PLL-bypassed-external mode: the PLL locked but not yet routed.
pub struct Pbe {
    pub mcg: Mcg,
}

/// The PLL-engaged-external mode: running from the PLL output.
pub struct Pee {
    pub mcg: Mcg,
}

impl Fei {
    /// The handle matches the hardware: settled status, FLL engaged from the
    /// internal reference, PLL off.
    pub open spec fn wf(self) -> bool {
        self.mcg.settled() && self.mcg.is_fei()
    }

    /// Program the oscillator range, enable the oscillator, and block until
    /// the status register reports it ready. A dead crystal would hang here
    /// forever; the hardware offers no timeout.
    pub fn enable_xtal(&mut self, range: OscRange)
        requires
            old(self).wf(),
        ensures
            final(self).mcg == xtal_enabled(old(self).mcg, range),
            final(self).wf(),
            c2_range(final(self).mcg.c2) == range_code(range),
            c2_erefs(final(self).mcg.c2),
            s_oscinit(final(self).mcg.s),
            fei_status(final(self).mcg.s),
    {
        proof {
            vstd::arithmetic::power2::lemma2_to64();
        }
        let code: u8 = match range {
            OscRange::Low => 0,
            OscRange::High => 1,
            OscRange::VeryHigh => 2,
        };
        self.mcg.c2 = set_bits8(self.mcg.c2, 4, 6, code);
        self.mcg.c2 = set_bit8(self.mcg.c2, 2, true);
        self.mcg.settle();
        proof {
            let oc2 = old(self).mcg.c2;
            assert(bits8(with_bit8(with_bits8(oc2, 4, 6, code), 2, true), 4, 6) == code
                && bit8(with_bit8(with_bits8(oc2, 4, 6, code), 2, true), 2)) by (bit_vector)
                requires
                    code < 4,
            ;
            lemma_status_fields(self.mcg.c1, self.mcg.c2, self.mcg.c6);
        }
        // Wait for the crystal oscillator to report ready; in the settled
        // model the bit is already set, so the poll sees it at once.
        while !get_bit8(self.mcg.s, 1)
            invariant
                bit8(self.mcg.s, 1),
            decreases 0int,
        {
        }
    }

    /// Route the FLL and the clock source to the external reference through
    /// one of the enumerated dividers, then block until the FLL has left the
    /// internal reference and the clock-source status reads external. A
    /// divider outside the enumerated set for the programmed range is a
    /// programming error and nothing is written.
    pub fn use_external(self, divide: u32) -> (r: Result<Fbe, McgError>)
        requires
            self.wf(),
        ensures
            (match r {
                Ok(fbe) => {
                    &&& valid_divide(c2_range(self.mcg.c2) == 0, divide)
                    &&& fbe.mcg == external_selected(
                        self.mcg,
                        frdiv_code(c2_range(self.mcg.c2) == 0, divide),
                    )
                    &&& c1_frdiv(fbe.mcg.c1) == frdiv_code(c2_range(self.mcg.c2) == 0, divide)
                    &&& fbe.wf()
                    &&& fbe_status(fbe.mcg.s)
                },
                Err(e) => {
                    &&& !valid_divide(c2_range(self.mcg.c2) == 0, divide)
                    &&& e == McgError::InvalidClockDivider
                },
            }),
    {
        proof {
            vstd::arithmetic::power2::lemma2_to64();
        }
        let osc = get_bits8(self.mcg.c2, 4, 6);
        let low = osc == 0;
        let frdiv: u8 = if low {
            match divide {
                1 => 0,
                2 => 1,
                4 => 2,
                8 => 3,
                16 => 4,
                32 => 5,
                64 => 6,
                128 => 7,
                _ => {
                    return Err(McgError::InvalidClockDivider);
                },
            }
        } else {
            match divide {
                32 => 0,
                64 => 1,
                128 => 2,
                256 => 3,
                512 => 4,
                1024 => 5,
                1280 => 6,
                1536 => 7,
                _ => {
                    return Err(McgError::InvalidClockDivider);
                },
            }
        };
        let mut m = self.mcg;
        m.c1 = set_bits8(m.c1, 6, 8, SRC_EXTERNAL);
        m.c1 = set_bits8(m.c1, 3, 6, frdiv);
        m.c1 = set_bit8(m.c1, 2, false);
        m.settle();
        proof {
            let oc1 = self.mcg.c1;
            let nc1 = with_bit8(with_bits8(with_bits8(oc1, 6, 8, 2), 3, 6, frdiv), 2, false);
            assert(bits8(nc1, 6, 8) == 2 && bits8(nc1, 3, 6) == frdiv && !bit8(nc1, 2))
                by (bit_vector)
                requires
                    frdiv < 8,
                    nc1 == with_bit8(with_bits8(with_bits8(oc1, 6, 8, 2), 3, 6, frdiv), 2, false),
            ;
            lemma_status_fields(m.c1, m.c2, m.c6);
        }
        // First wait for the FLL to leave the internal reference, then for
        // the clock-source status to read the external reference; the
        // settled model already shows both.
        while get_bit8(m.s, 4)
            invariant
                !bit8(m.s, 4),
            decreases 0int,
        {
        }
        while get_bits8(m.s, 2, 4) != SRC_EXTERNAL
            invariant
                bits8(m.s, 2, 4) == SRC_EXTERNAL,
            decreases 0int,
        {
        }
        Ok(Fbe { mcg: m })
    }
}

impl Fbe {
    /// The handle matches the hardware: settled status, FLL bypassed from
    /// the external reference, PLL off.
    pub open spec fn wf(self) -> bool {
        self.mcg.settled() && self.mcg.is_fbe()
    }

    /// Program the PLL reference and VCO divide factors, select the PLL, and
    /// block until it reports enabled and then locked. The target frequency
    /// is the reference frequency times `numerator / denominator`; a
    /// numerator outside 24..=55 or a denominator outside 1..=25 is a
    /// programming error and nothing is written.
    pub fn enable_pll(self, numerator: u8, denominator: u8) -> (r: Result<Pbe, McgError>)
        requires
            self.wf(),
        ensures
            (match r {
                Ok(pbe) => {
                    &&& 24 <= numerator <= 55
                    &&& 1 <= denominator <= 25
                    &&& pbe.mcg == pll_enabled(self.mcg, numerator, denominator)
                    &&& c5_prdiv(pbe.mcg.c5) == denominator - 1
                    &&& c6_vdiv(pbe.mcg.c6) == numerator - 24
                    &&& pbe.wf()
                    &&& pbe_status(pbe.mcg.s)
                },
                Err(e) => {
                    &&& (numerator < 24 || numerator > 55 || denominator < 1 || denominator > 25)
                    &&& e == (if numerator < 24 || numerator > 55 {
                        McgError::InvalidPllNumerator
                    } else {
                        McgError::InvalidPllDenominator
                    })
                },
            }),
    {
        if numerator < 24 || numerator > 55 {
            return Err(McgError::InvalidPllNumerator);
        }
        if denominator < 1 || denominator > 25 {
            return Err(McgError::InvalidPllDenominator);
        }
        proof {
            vstd::arithmetic::power2::lemma2_to64();
        }
        let mut m = self.mcg;
        // The hardware stores the reference divide as one less than its
        // value and the VCO divide as the multiplier less 24.
        m.c5 = set_bits8(m.c5, 0, 5, denominator - 1);
        m.c6 = set_bits8(m.c6, 0, 5, numerator - 24);
        m.c6 = set_bit8(m.c6, 6, true);
        m.settle();
        proof {
            let oc5 = self.mcg.c5;
            let oc6 = self.mcg.c6;
            let dm1 = (denominator - 1) as u8;
            let nm24 = (numerator - 24) as u8;
            let nc6 = with_bit8(with_bits8(oc6, 0, 5, nm24), 6, true);
            assert(bits8(with_bits8(oc5, 0, 5, dm1), 0, 5) == dm1 && bits8(nc6, 0, 5) == nm24
                && bit8(nc6, 6)) by (bit_vector)
                requires
                    dm1 < 32,
                    nm24 < 32,
                    nc6 == with_bit8(with_bits8(oc6, 0, 5, nm24), 6, true),
            ;
            lemma_status_fields(m.c1, m.c2, m.c6);
        }
        // Wait for the PLL to be enabled, then for it to report locked; the
        // settled model already shows both.
        while !get_bit8(m.s, 5)
            invariant
                bit8(m.s, 5),
            decreases 0int,
        {
        }
        while !get_bit8(m.s, 6)
            invariant
                bit8(m.s, 6),
            decreases 0int,
        {
        }
        Ok(Pbe { mcg: m })
    }
}

impl Pbe {
    /// The handle matches the hardware: settled status, PLL selected and
    /// locked, clock source still the external reference.
    pub open spec fn wf(self) -> bool {
        self.mcg.settled() && self.mcg.is_pbe()
    }

    /// Switch the clock source to the loop output and block until the
    /// clock-source status reads the value reserved for the PLL.
    pub fn use_pll(self) -> (r: Pee)
        requires
            self.wf(),
        ensures
            r.mcg == source_selected(self.mcg, SRC_LOCKED_LOOP),
            r.wf(),
            pee_status(r.mcg.s),
    {
        proof {
            vstd::arithmetic::power2::lemma2_to64();
        }
        let mut m = self.mcg;
        m.c1 = set_bits8(m.c1, 6, 8, SRC_LOCKED_LOOP);
        m.settle();
        proof {
            let oc1 = self.mcg.c1;
            assert(bits8(with_bits8(oc1, 6, 8, 0), 6, 8) == 0
                && bit8(with_bits8(oc1, 6, 8, 0), 2) == bit8(oc1, 2)) by (bit_vector);
            lemma_status_fields(m.c1, m.c2, m.c6);
        }
        // The select register says only "the loop output"; the status field
        // tells the PLL (3) apart from the FLL (0), so wait for 3, which the
        // settled model already shows.
        while get_bits8(m.s, 2, 4) != 3
            invariant
                bits8(m.s, 2, 4) == 3,
            decreases 0int,
        {
        }
        Pee { mcg: m }
    }

    /// Deselect the PLL, dropping back to the bare external reference, and
    /// block until the PLL reports disabled and unlocked.
    pub fn disable_pll(self) -> (r: Fbe)
        requires
            self.wf(),
        ensures
            r.mcg == pll_deselected(self.mcg),
            r.wf(),
            fbe_status(r.mcg.s),
    {
        let mut m = self.mcg;
        m.c6 = set_bit8(m.c6, 6, false);
        m.settle();
        proof {
            let oc6 = self.mcg.c6;
            assert(!bit8(with_bit8(oc6, 6, false), 6)) by (bit_vector);
            lemma_status_fields(m.c1, m.c2, m.c6);
        }
        // Wait for the PLL to report disabled, then unlocked; the settled
        // model already shows both.
        while get_bit8(m.s, 5)
            invariant
                !bit8(m.s, 5),
            decreases 0int,
        {
        }
        while get_bit8(m.s, 6)
            invariant
                !bit8(m.s, 6),
            decreases 0int,
        {
        }
        Fbe { mcg: m }
    }
}

impl Pee {
    /// The handle matches the hardware: settled status, running from the
    /// loop output with the PLL selected and locked.
    pub open spec fn wf(self) -> bool {
        self.mcg.settled() && self.mcg.is_pee()
    }

    /// Switch the clock source back to the external reference, leaving the
    /// PLL selected and locked, and block until the status reads external.
    pub fn use_external(self) -> (r: Pbe)
        requires
            self.wf(),
        ensures
            r.mcg == source_selected(self.mcg, SRC_EXTERNAL),
            r.wf(),
            pbe_status(r.mcg.s),
    {
        proof {
            vstd::arithmetic::power2::lemma2_to64();
        }
        let mut m = self.mcg;
        m.c1 = set_bits8(m.c1, 6, 8, SRC_EXTERNAL);
        m.settle();
        proof {
            let oc1 = self.mcg.c1;
            assert(bits8(with_bits8(oc1, 6, 8, 2), 6, 8) == 2
                && bit8(with_bits8(oc1, 6, 8, 2), 2) == bit8(oc1, 2)) by (bit_vector);
            lemma_status_fields(m.c1, m.c2, m.c6);
        }
        while get_bits8(m.s, 2, 4) != SRC_EXTERNAL
            invariant
                bits8(m.s, 2, 4) == SRC_EXTERNAL,
            decreases 0int,
        {
        }
        Pbe { mcg: m }
    }
}

// --- probing and the frequency profiles ---------------------------------------

/// Whichever mode the probe found the hardware in.
pub enum Clock {
    Fei(Fei),
    Fbe(Fbe),
    Pbe(Pbe),
    Pee(Pee),
}

/// A named target frequency: each maps to a PLL numerator and denominator and
/// a core/bus/flash divider triple.
#[derive(Clone, Copy, PartialEq, Eq, Structural, Debug)]
pub enum CpuFreq {
    /// Core/bus/flash at 96/48/24 MHz from a 96 MHz PLL.
    High,
    /// Core/bus/flash at 72/36/24 MHz from a 72 MHz PLL.
    Default,
    /// Core/bus/flash at 48/48/24 MHz from a 96 MHz PLL.
    Reduced,
    /// Core/bus/flash at 24/24/24 MHz from a 96 MHz PLL.
    Low,
}

/// PLL VCO multiplier of a profile.
pub open spec fn pll_numerator(c: CpuFreq) -> u8 {
    match c {
        CpuFreq::High => 24,
        CpuFreq::Default => 27,
        CpuFreq::Reduced => 24,
        CpuFreq::Low => 24,
    }
}

/// PLL reference divider of a profile.
pub open spec fn pll_denominator(c: CpuFreq) -> u8 {
    match c {
        CpuFreq::High => 4,
        CpuFreq::Default => 6,
        CpuFreq::Reduced => 4,
        CpuFreq::Low => 4,
    }
}

/// Core divider of a profile.
pub open spec fn core_divider(c: CpuFreq) -> u32 {
    match c {
        CpuFreq::High => 1,
        CpuFreq::Default => 1,
        CpuFreq::Reduced => 2,
        CpuFreq::Low => 4,
    }
}

/// Bus divider of a profile.
pub open spec fn bus_divider(c: CpuFreq) -> u32 {
    match c {
        CpuFreq::High => 2,
        CpuFreq::Default => 2,
        CpuFreq::Reduced => 2,
        CpuFreq::Low => 4,
    }
}

/// Flash divider of a profile.
pub open spec fn flash_divider(c: CpuFreq) -> u32 {
    match c {
        CpuFreq::High => 4,
        CpuFreq::Default => 3,
        CpuFreq::Reduced => 4,
        CpuFreq::Low => 4,
    }
}

/// The core frequency a profile reaches.
pub open spec fn cpu_hz(c: CpuFreq) -> u32 {
    match c {
        CpuFreq::High => 96_000_000,
        CpuFreq::Default => 72_000_000,
        CpuFreq::Reduced => 48_000_000,
        CpuFreq::Low => 24_000_000,
    }
}

/// The frequency of every profile is exactly the 16 MHz crystal multiplied by
/// the profile's PLL ratio and divided by its core divider; in particular the
/// default profile reaches 16 MHz * 27 / 6 = 72 MHz exactly.
pub proof fn lemma_cpu_hz_formula(c: CpuFreq)
    ensures
        cpu_hz(c) == 16_000_000int * pll_numerator(c) / pll_denominator(c) as int / core_divider(
            c,
        ) as int,
{
    match c {
        CpuFreq::High => {
            assert(cpu_hz(c) == 16_000_000int * 24 / 4 / 1);
        },
        CpuFreq::Default => {
            assert(cpu_hz(c) == 16_000_000int * 27 / 6 / 1);
        },
        CpuFreq::Reduced => {
            assert(cpu_hz(c) == 16_000_000int * 24 / 4 / 2);
        },
        CpuFreq::Low => {
            assert(cpu_hz(c) == 16_000_000int * 24 / 4 / 4);
        },
    }
}

/// No status value carries two modes' signatures at once: the clock-source
/// status and the PLL-selected bit tell all four apart.
pub proof fn lemma_status_signatures_distinct(s: u8)
    ensures
        !(fei_status(s) && fbe_status(s)),
        !(fei_status(s) && pbe_status(s)),
        !(fei_status(s) && pee_status(s)),
        !(fbe_status(s) && pbe_status(s)),
        !(fbe_status(s) && pee_status(s)),
        !(pbe_status(s) && pee_status(s)),
{
}

/// In a settled block each mode's control signature forces that mode's exact
/// status signature — so a transition's status register goes straight from
/// the source mode's signature to the destination's, and between the control
/// write and the polls no third mode's signature can appear.
pub proof fn lemma_mode_status(m: Mcg)
    requires
        m.settled(),
    ensures
        m.is_fei() ==> fei_status(m.s),
        m.is_fbe() ==> fbe_status(m.s),
        m.is_pbe() ==> pbe_status(m.s),
        m.is_pee() ==> pee_status(m.s),
{
    lemma_status_fields(m.c1, m.c2, m.c6);
}

impl Mcg {
    /// Probe the live register block and hand back the matching mode. A bit
    /// combination that matches none of the four known signatures is a fatal
    /// startup invariant violation: the hardware is in a state this machine
    /// does not model.
    pub fn clock(self) -> (r: Result<Clock, McgError>)
        requires
            self.settled(),
        ensures
            (match r {
                Ok(c) => self.recognized() && (match c {
                    Clock::Fei(x) => x.mcg == self && self.is_fei() && x.wf(),
                    Clock::Fbe(x) => x.mcg == self && self.is_fbe() && x.wf(),
                    Clock::Pbe(x) => x.mcg == self && self.is_pbe() && x.wf(),
                    Clock::Pee(x) => x.mcg == self && self.is_pee() && x.wf(),
                }),
                Err(e) => !self.recognized() && e == McgError::UnrecognizedMode,
            }),
    {
        let source = get_bits8(self.c1, 6, 8);
        let fll_internal = get_bit8(self.c1, 2);
        let pll_enabled = get_bit8(self.c6, 6);
        if fll_internal && !pll_enabled && source == SRC_LOCKED_LOOP {
            Ok(Clock::Fei(Fei { mcg: self }))
        } else if !fll_internal && !pll_enabled && source == SRC_EXTERNAL {
            Ok(Clock::Fbe(Fbe { mcg: self }))
        } else if !fll_internal && pll_enabled && source == SRC_EXTERNAL {
            Ok(Clock::Pbe(Pbe { mcg: self }))
        } else if !fll_internal && pll_enabled && source == SRC_LOCKED_LOOP {
            Ok(Clock::Pee(Pee { mcg: self }))
        } else {
            Err(McgError::UnrecognizedMode)
        }
    }

    /// Normalize from whatever mode the probe finds down to the
    /// FLL-bypassed-external mode: from reset this acquires the crystal and
    /// selects it through the one divider that puts a fast crystal in the
    /// FLL's range; from the PLL modes it steps back down; from the target
    /// mode itself it is a no-op.
    pub fn mode_to_fbe(self) -> (r: Result<Fbe, McgError>)
        requires
            self.settled(),
        ensures
            (match r {
                Ok(fbe) => {
                    &&& self.recognized()
                    &&& fbe.mcg == normalized_to_fbe(self)
                    &&& fbe.wf()
                    &&& fbe_status(fbe.mcg.s)
                },
                Err(e) => !self.recognized() && e == McgError::UnrecognizedMode,
            }),
    {
        match self.clock() {
            Ok(Clock::Fei(mut fei)) => {
                // The 16 MHz crystal is "very fast" and must be divided by
                // 512 to land in the FLL's 31.25..39.0625 kHz window.
                fei.enable_xtal(OscRange::VeryHigh);
                match fei.use_external(512) {
                    Ok(fbe) => Ok(fbe),
                    Err(_) => unreached(),
                }
            },
            Ok(Clock::Fbe(fbe)) => {
                proof {
                    lemma_status_fields(fbe.mcg.c1, fbe.mcg.c2, fbe.mcg.c6);
                }
                Ok(fbe)
            },
            Ok(Clock::Pbe(pbe)) => Ok(pbe.disable_pll()),
            Ok(Clock::Pee(pee)) => Ok(pee.use_external().disable_pll()),
            Err(e) => Err(e),
        }
    }

    /// Drive the clock tree from whatever mode it is in to the PLL-engaged
    /// mode of the given profile: step down to the FLL-bypassed-external
    /// mode, program the bus and flash dividers, enable the PLL with the
    /// profile's ratio, engage it, and record the new core frequency. An
    /// unrecognized block is rejected before anything is programmed.
    pub fn set_clocks(self, clock: CpuFreq, sim: &mut Sim, freq: &mut CurrentFrequency) -> (r:
        Result<Pee, McgError>)
        requires
            self.settled(),
        ensures
            (match r {
                Ok(pee) => {
                    &&& self.recognized()
                    &&& final(freq).hz == cpu_hz(clock)
                    &&& final(sim).clkdiv1 == clkdiv_encoding(
                        core_divider(clock),
                        bus_divider(clock),
                        flash_divider(clock),
                    )
                    &&& *final(sim) == (Sim { clkdiv1: final(sim).clkdiv1, ..*old(sim) })
                    &&& pee.mcg == source_selected(
                        pll_enabled(
                            normalized_to_fbe(self),
                            pll_numerator(clock),
                            pll_denominator(clock),
                        ),
                        SRC_LOCKED_LOOP,
                    )
                    &&& pee.wf()
                    &&& pee_status(pee.mcg.s)
                    &&& c6_vdiv(pee.mcg.c6) == pll_numerator(clock) - 24
                    &&& c5_prdiv(pee.mcg.c5) == pll_denominator(clock) - 1
                },
                Err(e) => {
                    &&& !self.recognized()
                    &&& e == McgError::UnrecognizedMode
                    &&& *final(sim) == *old(sim)
                    &&& *final(freq) == *old(freq)
                },
            }),
    {
        // Reject an unmodelled block before touching the frequency record or
        // the dividers.
        let fbe = match self.mode_to_fbe() {
            Ok(fbe) => fbe,
            Err(e) => {
                return Err(e);
            },
        };
        let numerator: u8;
        let denominator: u8;
        match clock {
            CpuFreq::High => {
                freq.hz = 96_000_000;
                sim.set_dividers(1, 2, 4);
                numerator = 24;
                denominator = 4;
            },
            CpuFreq::Default => {
                freq.hz = 72_000_000;
                sim.set_dividers(1, 2, 3);
                numerator = 27;
                denominator = 6;
            },
            CpuFreq::Reduced => {
                freq.hz = 48_000_000;
                sim.set_dividers(2, 2, 4);
                numerator = 24;
                denominator = 4;
            },
            CpuFreq::Low => {
                freq.hz = 24_000_000;
                sim.set_dividers(4, 4, 4);
                numerator = 24;
                denominator = 4;
            },
        }
        let pbe = match fbe.enable_pll(numerator, denominator) {
            Ok(pbe) => pbe,
            Err(_) => unreached(),
        };
        Ok(pbe.use_pll())
    }
}

} // verus!
