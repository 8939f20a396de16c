//! The startup sequence: disable the watchdog, open every port's clock gate,
//! program the full-speed dividers, and drive the clock tree from its reset
//! mode up to the 72 MHz PLL configuration.

use vstd::prelude::*;
use vstd::pervasive::unreached;
use crate::bits::{bit32, with_bit32, with_bit16};
use crate::mcg::{
    Mcg, McgError, OscRange, Clock, Pee, pee_status, c5_prdiv, c6_vdiv, normalized_to_fbe,
    pll_enabled, source_selected, SRC_LOCKED_LOOP,
};
use crate::sim::{Sim, Clock as SimClock, clkdiv_encoding};
use crate::watchdog::Watchdog;
use crate::CurrentFrequency;

verus! {

/// Bring the chip up: watchdog off, every port clocked, core at 72 MHz,
/// peripherals at 36 MHz, flash at 24 MHz. The clock tree must be in its
/// reset mode, FLL engaged from the internal reference; finding it anywhere
/// else is a startup invariant violation and nothing past the dividers is
/// written.
pub fn boot(wdog: &mut Watchdog, sim: &mut Sim, mcg: Mcg, freq: &mut CurrentFrequency) -> (r:
    Result<Pee, McgError>)
    requires
        mcg.settled(),
    ensures
        final(wdog).stctrlh == with_bit16(old(wdog).stctrlh, 0, false),
        final(sim).scgc5 == with_bit32(
            with_bit32(
                with_bit32(with_bit32(with_bit32(old(sim).scgc5, 9, true), 10, true), 11, true),
                12,
                true,
            ),
            13,
            true,
        ),
        bit32(final(sim).scgc5, 9) && bit32(final(sim).scgc5, 10) && bit32(final(sim).scgc5, 11)
            && bit32(final(sim).scgc5, 12) && bit32(final(sim).scgc5, 13),
        final(sim).clkdiv1 == clkdiv_encoding(1, 2, 3),
        (match r {
            Ok(pee) => {
                &&& mcg.is_fei()
                &&& pee.mcg == source_selected(pll_enabled(normalized_to_fbe(mcg), 27, 6),
                    SRC_LOCKED_LOOP)
                &&& pee.wf()
                &&& pee_status(pee.mcg.s)
                &&& c6_vdiv(pee.mcg.c6) == 3
                &&& c5_prdiv(pee.mcg.c5) == 5
                &&& final(freq).hz == 72_000_000
            },
            Err(e) => {
                &&& !mcg.is_fei()
                &&& e == McgError::UnrecognizedMode || e == McgError::NotInFeiMode
                &&& (e == McgError::UnrecognizedMode <==> !mcg.recognized())
                &&& *final(freq) == *old(freq)
            },
        }),
{
    wdog.disable();

    // Every port answers on the bus only once its clock gate is open.
    sim.enable_clock(SimClock::PortA);
    sim.enable_clock(SimClock::PortB);
    sim.enable_clock(SimClock::PortC);
    sim.enable_clock(SimClock::PortD);
    sim.enable_clock(SimClock::PortE);

    // Core at 72 MHz, peripherals at 36 MHz, flash at 24 MHz.
    sim.set_dividers(1, 2, 3);

    proof {
        let w = old(sim).scgc5;
        let w5 = with_bit32(
            with_bit32(with_bit32(with_bit32(with_bit32(w, 9, true), 10, true), 11, true), 12, true),
            13,
            true,
        );
        assert(bit32(w5, 9) && bit32(w5, 10) && bit32(w5, 11) && bit32(w5, 12) && bit32(w5, 13))
            by (bit_vector)
            requires
                w5 == with_bit32(
                    with_bit32(
                        with_bit32(with_bit32(with_bit32(w, 9, true), 10, true), 11, true),
                        12,
                        true,
                    ),
                    13,
                    true,
                ),
        ;
    }

    match mcg.clock() {
        Ok(Clock::Fei(mut fei)) => {
            // The 16 MHz crystal is very fast and needs the 512 divider to
            // land in the FLL's input range.
            fei.enable_xtal(OscRange::VeryHigh);
            let fbe = match fei.use_external(512) {
                Ok(fbe) => fbe,
                Err(_) => unreached(),
            };
            // 16 MHz * 27 / 6 = 72 MHz.
            let pbe = match fbe.enable_pll(27, 6) {
                Ok(pbe) => pbe,
                Err(_) => unreached(),
            };
            let pee = pbe.use_pll();
            freq.hz = 72_000_000;
            Ok(pee)
        },
        Ok(_) => Err(McgError::NotInFeiMode),
        Err(e) => Err(e),
    }
}

} // verus!
