//! The USB serial device descriptor: the fixed identification record a
//! communication-class device hands to the host, plus the byte-splitting
//! helpers the descriptor tables use.

use vstd::prelude::*;

verus! {

/// USB communication-device class code.
pub const DEVICE_CLASS: u8 = 2;

/// Size of endpoint zero's buffers.
pub const EP0_SIZE: u8 = 64;

/// Vendor identifier the board enumerates under.
pub const VENDOR_ID: u16 = 0x16C0;

/// Product identifier the board enumerates under.
pub const PRODUCT_ID: u16 = 0x0483;

/// The high byte of a 16-bit descriptor field.
#[allow(non_snake_case)]
pub fn MSB(n: u16) -> (r: u8)
    ensures
        r == ((n >> 8u16) & 255) as u8,
        r == n / 256,
{
    proof {
        assert(((n >> 8u16) & 255) as u8 == n / 256) by (bit_vector);
    }
    ((n >> 8) & 255) as u8
}

/// The low byte of a 16-bit descriptor field.
#[allow(non_snake_case)]
pub fn LSB(n: u16) -> (r: u8)
    ensures
        r == (n & 255) as u8,
        r == n % 256,
{
    proof {
        assert((n & 255) as u8 == n % 256) by (bit_vector);
    }
    (n & 255) as u8
}

/// The device descriptor: field names and layout follow the USB
/// specification's tables.
#[allow(non_snake_case)]
pub struct DeviceDescriptor {
    pub bLength: u8,
    pub bDescriptorType: u8,
    pub bcdUSB: u16,
    pub bDeviceClass: u8,
    pub bDeviceSubClass: u8,
    pub bDeviceProtocol: u8,
    pub bMaxPacketSize0: u8,
    pub idVendor: u16,
    pub idProduct: u16,
    pub bcdDevice: u16,
    pub iManufacturer: u8,
    pub iProduct: u8,
    pub iSerialNumber: u8,
    pub bNumConfigurations: u8,
}

impl DeviceDescriptor {
    /// The descriptor of the board's USB serial device: an 18-byte
    /// device descriptor for a full-speed communication-class device with
    /// one configuration.
    #[allow(non_snake_case)]
    pub fn new_USB_serial_descriptor() -> (r: DeviceDescriptor)
        ensures
            r == (DeviceDescriptor {
                bLength: 18,
                bDescriptorType: 1,
                bcdUSB: 0x0110,
                bDeviceClass: DEVICE_CLASS,
                bDeviceSubClass: 0,
                bDeviceProtocol: 0,
                bMaxPacketSize0: EP0_SIZE,
                idVendor: VENDOR_ID,
                idProduct: PRODUCT_ID,
                bcdDevice: 0x0275,
                iManufacturer: 1,
                iProduct: 2,
                iSerialNumber: 3,
                bNumConfigurations: 1,
            }),
    {
        DeviceDescriptor {
            bLength: 18,
            bDescriptorType: 1,
            bcdUSB: 0x0110,
            bDeviceClass: DEVICE_CLASS,
            bDeviceSubClass: 0,
            bDeviceProtocol: 0,
            bMaxPacketSize0: EP0_SIZE,
            idVendor: VENDOR_ID,
            idProduct: PRODUCT_ID,
            bcdDevice: 0x0275,
            iManufacturer: 1,
            iProduct: 2,
            iSerialNumber: 3,
            bNumConfigurations: 1,
        }
    }
}

} // verus!
