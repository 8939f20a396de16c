use teensy::mcg::{Clock, CpuFreq, Fbe, Mcg, McgError, OscRange, Pbe, Pee};
use teensy::sim::Sim;
use teensy::CurrentFrequency;

fn fresh_fei() -> teensy::mcg::Fei {
    match Mcg::new().clock() {
        Ok(Clock::Fei(fei)) => fei,
        _ => panic!("reset block must probe as FEI"),
    }
}

fn fresh_fbe() -> Fbe {
    let mut fei = fresh_fei();
    fei.enable_xtal(OscRange::VeryHigh);
    fei.use_external(512).unwrap()
}

fn fresh_pbe() -> Pbe {
    fresh_fbe().enable_pll(27, 6).unwrap()
}

fn fresh_pee() -> Pee {
    fresh_pbe().use_pll()
}

#[test]
fn reset_state_probes_as_fei() {
    let m = Mcg::new();
    assert_eq!(m.c1, 0x04);
    assert_eq!(m.s, 0x10);
    assert!(matches!(m.clock(), Ok(Clock::Fei(_))));
}

#[test]
fn transition_status_signatures() {
    // FEI: status 0x10 (source internal, FLL, no PLL).
    let mut fei = fresh_fei();
    assert_eq!(fei.mcg.s, 0x10);

    // Oscillator on: still the FEI signature, plus oscillator-ready.
    fei.enable_xtal(OscRange::VeryHigh);
    assert_eq!(fei.mcg.c2, 0x24);
    assert_eq!(fei.mcg.s, 0x12);

    // FEI -> FBE: clock-source status external, FLL reference external.
    let fbe = fei.use_external(512).unwrap();
    assert_eq!(fbe.mcg.c1, 0xA0);
    assert_eq!(fbe.mcg.s, 0x0A);

    // FBE -> PBE: still external, PLL selected and locked.
    let pbe = fbe.enable_pll(27, 6).unwrap();
    assert_eq!(pbe.mcg.c5, 0x05);
    assert_eq!(pbe.mcg.c6, 0x43);
    assert_eq!(pbe.mcg.s, 0x6A);

    // PBE -> PEE: clock-source status reads 3, the value reserved for the PLL.
    let pee = pbe.use_pll();
    assert_eq!(pee.mcg.c1, 0x20);
    assert_eq!(pee.mcg.s, 0x6E);

    // PEE -> PBE: back to external with the PLL still locked.
    let pbe = pee.use_external();
    assert_eq!(pbe.mcg.c1, 0xA0);
    assert_eq!(pbe.mcg.s, 0x6A);

    // PBE -> FBE: PLL deselected and unlocked.
    let fbe = pbe.disable_pll();
    assert_eq!(fbe.mcg.c6, 0x03);
    assert_eq!(fbe.mcg.s, 0x0A);
}

#[test]
fn low_range_divider_three_rejected_one_accepted() {
    // The reset block has the oscillator range at low; 3 is not in the
    // low-range divider set, 1 is.
    let fei = fresh_fei();
    assert!(matches!(fei.use_external(3), Err(McgError::InvalidClockDivider)));
    let fei = fresh_fei();
    assert!(fei.use_external(1).is_ok());
}

#[test]
fn high_range_divider_sets() {
    let mut fei = fresh_fei();
    fei.enable_xtal(OscRange::VeryHigh);
    assert!(matches!(fei.use_external(1), Err(McgError::InvalidClockDivider)));
    let mut fei = fresh_fei();
    fei.enable_xtal(OscRange::VeryHigh);
    assert!(fei.use_external(1536).is_ok());
}

#[test]
fn pll_parameters_rejected_outside_ranges() {
    assert!(matches!(
        fresh_fbe().enable_pll(23, 6),
        Err(McgError::InvalidPllNumerator)
    ));
    assert!(matches!(
        fresh_fbe().enable_pll(56, 6),
        Err(McgError::InvalidPllNumerator)
    ));
    assert!(matches!(
        fresh_fbe().enable_pll(27, 0),
        Err(McgError::InvalidPllDenominator)
    ));
    assert!(matches!(
        fresh_fbe().enable_pll(27, 26),
        Err(McgError::InvalidPllDenominator)
    ));
    assert!(fresh_fbe().enable_pll(24, 1).is_ok());
    assert!(fresh_fbe().enable_pll(55, 25).is_ok());
}

fn check_default_target(m: Mcg) {
    let mut sim = Sim::new();
    let mut freq = CurrentFrequency::new();
    let pee = m.set_clocks(CpuFreq::Default, &mut sim, &mut freq).unwrap();
    assert_eq!(freq.hz, 72_000_000);
    assert_eq!(sim.clkdiv1, 0x0102_0000);
    assert_eq!(pee.mcg.c5, 0x05);
    assert_eq!(pee.mcg.c6, 0x43);
    assert_eq!(pee.mcg.s, 0x6E);
}

#[test]
fn set_clocks_default_converges_from_fei() {
    check_default_target(fresh_fei().mcg);
}

#[test]
fn set_clocks_default_converges_from_fbe() {
    check_default_target(fresh_fbe().mcg);
}

#[test]
fn set_clocks_default_converges_from_pbe() {
    check_default_target(fresh_pbe().mcg);
}

#[test]
fn set_clocks_default_converges_from_pee() {
    check_default_target(fresh_pee().mcg);
}

#[test]
fn set_clocks_profiles_reach_their_frequencies() {
    for (profile, hz, clkdiv) in [
        (CpuFreq::High, 96_000_000u32, 0x0103_0000u32),
        (CpuFreq::Default, 72_000_000, 0x0102_0000),
        (CpuFreq::Reduced, 48_000_000, 0x1103_0000),
        (CpuFreq::Low, 24_000_000, 0x3303_0000),
    ] {
        let mut sim = Sim::new();
        let mut freq = CurrentFrequency::new();
        let pee = Mcg::new().set_clocks(profile, &mut sim, &mut freq).unwrap();
        assert_eq!(freq.hz, hz);
        assert_eq!(sim.clkdiv1, clkdiv);
        assert_eq!(pee.mcg.s, 0x6E);
    }
}

#[test]
fn unrecognized_mode_is_rejected() {
    // Clock-source select at the internal reference is none of the four
    // modelled modes.
    let mut m = Mcg::new();
    m.c1 = 0x40;
    m.settle();
    assert!(matches!(m.clock(), Err(McgError::UnrecognizedMode)));

    let mut m = Mcg::new();
    m.c1 = 0x40;
    m.settle();
    let mut sim = Sim::new();
    let mut freq = CurrentFrequency::new();
    assert!(matches!(
        m.set_clocks(CpuFreq::Default, &mut sim, &mut freq),
        Err(McgError::UnrecognizedMode)
    ));
    // The rejection happens before anything is programmed.
    assert_eq!(sim.clkdiv1, 0);
    assert_eq!(freq.hz, 72_000_000);
}

#[test]
fn mode_to_fbe_from_every_mode() {
    // From reset: crystal acquired at the very-high range and selected
    // through the fixed 512 divider (divider field 4).
    let fbe = fresh_fei().mcg.mode_to_fbe().unwrap();
    assert_eq!(fbe.mcg.c1, 0xA0);
    assert_eq!(fbe.mcg.c2, 0x24);
    assert_eq!(fbe.mcg.s, 0x0A);

    // From the target mode itself: nothing moves.
    let start = fresh_fbe().mcg;
    let (c1, c2, s) = (start.c1, start.c2, start.s);
    let fbe = start.mode_to_fbe().unwrap();
    assert_eq!(fbe.mcg.c1, c1);
    assert_eq!(fbe.mcg.c2, c2);
    assert_eq!(fbe.mcg.s, s);

    // From the PLL modes: the PLL is deselected, the divider kept.
    let fbe = fresh_pbe().mcg.mode_to_fbe().unwrap();
    assert_eq!(fbe.mcg.c1, 0xA0);
    assert_eq!(fbe.mcg.c6, 0x03);
    assert_eq!(fbe.mcg.s, 0x0A);
    let fbe = fresh_pee().mcg.mode_to_fbe().unwrap();
    assert_eq!(fbe.mcg.c1, 0xA0);
    assert_eq!(fbe.mcg.c6, 0x03);
    assert_eq!(fbe.mcg.s, 0x0A);
}
