use teensy::gpio::GpioBitband;
use teensy::port::{Pin, PinError, Port, PortName};

#[test]
fn pin_thirteen_is_port_c_five() {
    let p = Pin::new(13).unwrap();
    assert!(matches!(p.port, PortName::C));
    assert_eq!(p.pin, 5);
    assert_eq!(p.pcr, 0);
}

#[test]
fn pin_thirty_four_is_rejected() {
    assert!(matches!(Pin::new(34), Err(PinError::InvalidPinNumber)));
    assert!(matches!(Pin::new(usize::MAX), Err(PinError::InvalidPinNumber)));
}

#[test]
fn pin_table_corners() {
    let p = Pin::new(0).unwrap();
    assert!(matches!(p.port, PortName::B));
    assert_eq!(p.pin, 16);
    let p = Pin::new(33).unwrap();
    assert!(matches!(p.port, PortName::A));
    assert_eq!(p.pin, 4);
}

#[test]
fn port_hands_out_pins_with_their_registers() {
    let mut port = Port::new(PortName::C);
    assert!(matches!(port.name(), PortName::C));
    port.set_pin_mode(5, 2);
    let pin = port.pin(5);
    assert!(matches!(pin.port, PortName::C));
    assert_eq!(pin.pin, 5);
    assert_eq!(pin.pcr, 2 << 8);
}

#[test]
fn port_bit_setters() {
    let mut port = Port::new(PortName::A);
    port.set_pin_pe(3, true);
    assert_eq!(port.pcr[3], 0b10);
    port.set_pin_ps(3, true);
    assert_eq!(port.pcr[3], 0b11);
    port.set_pin_ps(3, false);
    assert_eq!(port.pcr[3], 0b10);
}

#[test]
fn pin_electrical_setters() {
    let pin = Pin::new(13).unwrap();
    let pin = pin
        .with_pin_ps(true)
        .with_pin_pe(true)
        .with_pin_sre(true)
        .with_pin_pfe(true)
        .with_pin_ode(true)
        .with_pin_dse(true);
    assert_eq!(pin.pcr, 0b111_0111);
    let pin = pin.with_pin_pfe(false).with_pin_ps(false);
    assert_eq!(pin.pcr, 0b110_0110);
}

#[test]
fn make_gpio_sets_mux_to_gpio_function() {
    let mut pin = Pin::new(13).unwrap();
    pin.set_pin_mode(7);
    let gpio = pin.make_gpio();
    assert!(matches!(gpio.port, PortName::C));
    assert_eq!(gpio.pin, 5);
    // The function-select field, bits 8..11, now holds the GPIO code.
    assert_eq!((gpio.pcr >> 8) & 0b111, 1);
    assert_eq!(gpio.pcr, 1 << 8);
}

#[test]
fn output_writes_touch_only_their_pin() {
    let mut bank = GpioBitband::new(PortName::C);
    let a = Pin::new(13).unwrap().make_gpio(); // port C, pin 5
    let b = Pin::new(23).unwrap().make_gpio(); // port C, pin 2
    let mut a = a.output(&mut bank);
    let mut b = b.output(&mut bank);
    assert_eq!(bank.pddr, (1 << 5) | (1 << 2));

    // Interleave traffic on the two pins; each pin's bit depends only on
    // its own operations.
    a.high(&mut bank);
    assert_eq!(bank.pdor, 1 << 5);
    b.toggle(&mut bank);
    assert_eq!(bank.pdor, (1 << 5) | (1 << 2));
    a.toggle(&mut bank);
    assert_eq!(bank.pdor, 1 << 2);
    b.high(&mut bank);
    assert_eq!(bank.pdor, 1 << 2);
    a.low(&mut bank);
    assert_eq!(bank.pdor, 1 << 2);
    b.low(&mut bank);
    assert_eq!(bank.pdor, 0);
}

#[test]
fn interleaved_toggles_are_order_independent() {
    let mut bank1 = GpioBitband::new(PortName::D);
    let mut bank2 = GpioBitband::new(PortName::D);
    let mut a1 = Pin::new(2).unwrap().make_gpio().output(&mut bank1); // D0
    let mut b1 = Pin::new(5).unwrap().make_gpio().output(&mut bank1); // D7
    let mut a2 = Pin::new(2).unwrap().make_gpio().output(&mut bank2);
    let mut b2 = Pin::new(5).unwrap().make_gpio().output(&mut bank2);

    a1.toggle(&mut bank1);
    b1.toggle(&mut bank1);
    b2.toggle(&mut bank2);
    a2.toggle(&mut bank2);
    assert_eq!(bank1.pdor, bank2.pdor);
    assert_eq!(bank1.pdor, (1 << 0) | (1 << 7));
}

#[test]
fn input_reads_the_driven_level() {
    let mut bank = GpioBitband::new(PortName::C);
    let g = Pin::new(9).unwrap().make_gpio(); // port C, pin 3
    let g = g.input(&mut bank);
    assert_eq!(bank.pddr, 0);
    assert_eq!(g.read(&bank), 0);
    bank.pdir = 1 << 3;
    assert_eq!(g.read(&bank), 1);
    bank.pdir = !(1u32 << 3);
    assert_eq!(g.read(&bank), 0);
}
