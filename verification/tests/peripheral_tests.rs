use teensy::boot::boot;
use teensy::mcg::{Clock, Mcg, McgError, OscRange};
use teensy::port::PortName;
use teensy::sim::{Clock as SimClock, Sim};
use teensy::sleep::{delay, sleep_ms, sleep_us};
use teensy::uart::{Available_UART, UART};
use teensy::usb_serial::{DeviceDescriptor, LSB, MSB};
use teensy::watchdog::Watchdog;
use teensy::CurrentFrequency;

#[test]
fn uart_setup_72mhz_115200_baud() {
    let mut uart = UART::new(Available_UART::UART0);
    let mut sim = Sim::new();
    let freq = CurrentFrequency::new();
    assert_eq!(freq.hz, 72_000_000);
    uart.setup(&mut sim, 115200, &freq);
    // divisor = 72 MHz / (115200 * 16) = 39; fine adjust =
    // (2 * 72 MHz / 115200) - 39 * 32 = 1250 - 1248 = 2.
    assert_eq!(uart.bdh, 0);
    assert_eq!(uart.bdl, 39);
    assert_eq!(uart.c4, 2);
    assert_eq!(uart.c1, 0);
    assert_eq!(uart.c2, 0x08);
    assert_eq!(sim.scgc4, 1 << 10);
}

#[test]
fn uart_setup_other_rates() {
    let mut uart = UART::new(Available_UART::UART1);
    let mut sim = Sim::new();
    let freq = CurrentFrequency::new();
    uart.setup(&mut sim, 9600, &freq);
    // divisor = 72 MHz / (9600 * 16) = 468; fine adjust = 15000 - 14976 = 24.
    assert_eq!(uart.bdh, 1);
    assert_eq!(uart.bdl, 212);
    assert_eq!(uart.c4, 24);
    assert_eq!(sim.scgc4, 1 << 11);
}

#[test]
fn uart_claims_its_pads() {
    let uart = UART::new(Available_UART::UART0);
    assert!(matches!(uart.name(), Available_UART::UART0));
    assert!(matches!(uart.rx.port, PortName::B));
    assert_eq!(uart.rx.pin, 16);
    assert_eq!(uart.rx.pcr, 3 << 8);
    assert!(matches!(uart.tx.port, PortName::B));
    assert_eq!(uart.tx.pin, 17);
    assert_eq!(uart.tx.pcr, 3 << 8);

    let uart2 = UART::new(Available_UART::UART2);
    assert!(matches!(uart2.rx.port, PortName::D));
    assert_eq!(uart2.rx.pin, 2);
    assert!(matches!(uart2.tx.port, PortName::D));
    assert_eq!(uart2.tx.pin, 3);
}

#[test]
fn uart_transmit_logs_bytes() {
    let mut uart = UART::new(Available_UART::UART0);
    uart.write_byte(b'A');
    assert_eq!(uart.d, b'A');
    assert_eq!(uart.sent, vec![b'A']);
    uart.write_str("ok!");
    assert_eq!(uart.sent, vec![b'A', b'o', b'k', b'!']);
    assert_eq!(uart.d, b'!');
}

#[test]
fn watchdog_disable_clears_enable_bit() {
    let mut wdog = Watchdog::new();
    assert_eq!(wdog.stctrlh, 0x01D3);
    wdog.disable();
    assert_eq!(wdog.stctrlh, 0x01D2);
    assert_eq!(wdog.unlock_stage, 2);
}

#[test]
fn watchdog_unlock_sequence_order_matters() {
    let mut wdog = Watchdog::new();
    wdog.write_unlock(0xD928);
    assert_eq!(wdog.unlock_stage, 0);
    wdog.write_unlock(0xC520);
    assert_eq!(wdog.unlock_stage, 1);
    wdog.write_unlock(0xC520);
    assert_eq!(wdog.unlock_stage, 1);
    wdog.write_unlock(0xD928);
    assert_eq!(wdog.unlock_stage, 2);
}

#[test]
fn msb_lsb_split() {
    assert_eq!(MSB(0x1234), 0x12);
    assert_eq!(LSB(0x1234), 0x34);
    assert_eq!(MSB(0x00FF), 0);
    assert_eq!(LSB(0xFF00), 0);
}

#[test]
fn usb_serial_descriptor_fields() {
    let d = DeviceDescriptor::new_USB_serial_descriptor();
    assert_eq!(d.bLength, 18);
    assert_eq!(d.bDescriptorType, 1);
    assert_eq!(d.bcdUSB, 0x0110);
    assert_eq!(d.bDeviceClass, 2);
    assert_eq!(d.bMaxPacketSize0, 64);
    assert_eq!(d.idVendor, 0x16C0);
    assert_eq!(d.idProduct, 0x0483);
    assert_eq!(d.bcdDevice, 0x0275);
    assert_eq!(d.bNumConfigurations, 1);
}

#[test]
fn sleeps_terminate() {
    let freq = CurrentFrequency::new();
    sleep_us(3, &freq);
    sleep_ms(1, &freq);
    delay(1000);
}

#[test]
fn boot_reaches_72mhz_pll() {
    let mut wdog = Watchdog::new();
    let mut sim = Sim::new();
    let mut freq = CurrentFrequency::new();
    let pee = boot(&mut wdog, &mut sim, Mcg::new(), &mut freq).unwrap();
    assert_eq!(wdog.stctrlh, 0x01D2);
    assert_eq!(sim.scgc5, 0b11111 << 9);
    assert_eq!(sim.clkdiv1, 0x0102_0000);
    assert_eq!(freq.hz, 72_000_000);
    assert_eq!(pee.mcg.s, 0x6E);
}

#[test]
fn boot_rejects_other_modes() {
    // A block already past FEI is not what startup expects.
    let mut fei = match Mcg::new().clock() {
        Ok(Clock::Fei(fei)) => fei,
        _ => panic!("reset block must probe as FEI"),
    };
    fei.enable_xtal(OscRange::VeryHigh);
    let fbe = fei.use_external(512).unwrap();
    let mut wdog = Watchdog::new();
    let mut sim = Sim::new();
    let mut freq = CurrentFrequency::new();
    assert!(matches!(
        boot(&mut wdog, &mut sim, fbe.mcg, &mut freq),
        Err(McgError::NotInFeiMode)
    ));

    // A block in none of the four modes is unrecognized.
    let mut m = Mcg::new();
    m.c1 = 0x40;
    m.settle();
    assert!(matches!(
        boot(&mut wdog, &mut sim, m, &mut freq),
        Err(McgError::UnrecognizedMode)
    ));
}

#[test]
fn sim_gates_open_one_bit_each() {
    let mut sim = Sim::new();
    sim.enable_clock(SimClock::PortA);
    assert_eq!(sim.scgc5, 1 << 9);
    sim.enable_clock(SimClock::PortE);
    assert_eq!(sim.scgc5, (1 << 9) | (1 << 13));
    sim.set_dividers(1, 2, 3);
    assert_eq!(sim.clkdiv1, 0x0102_0000);
    sim.set_dividers(16, 16, 16);
    assert_eq!(sim.clkdiv1, 0xFF0F_0000);
}
