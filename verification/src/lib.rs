//! Protocol core for the AltJack multi-port USB hub/relay accessory.
//!
//! The accessory exposes per-port power control over two transports: standard
//! USB hub class control requests, and a vendor HID report protocol that
//! pulses ("touches") a port through an auxiliary microcontroller. This crate
//! holds the protocol logic — device filtering and selection, status-word
//! decoding, control-request framing, and HID report framing and parsing.
//! The transports themselves (USB control transfers, HID reads and writes)
//! are supplied by the embedding application: every function here goes from
//! plain values to plain values, so the exact bytes and codes that must flow
//! over the wire are stated in contracts and checked.

use vstd::prelude::*;

pub mod hid_device;
pub mod usb_device;

verus! {

/// Vendor id shared by every AltJack device, on both transports.
pub const ALTJACK_VID: u16 = 0x0451;

/// USB device class of a hub; the power-control transport filters on it.
pub const USB_CLASS_HUB: u8 = 0x09;

/// Lowest usable downstream port number.
pub const FIRST_PORT: u8 = 1;

/// Highest usable downstream port number.
pub const LAST_PORT: u8 = 4;

/// The usable port numbers form the closed range `FIRST_PORT..=LAST_PORT`.
pub open spec fn is_usable_port(port: u8) -> bool {
    FIRST_PORT <= port && port <= LAST_PORT
}

/// True exactly when `port` names one of the accessory's usable ports.
/// Every port operation must reject other numbers before any transport I/O.
pub fn usable_port(port: u8) -> (r: bool)
    ensures
        r == is_usable_port(port),
{
    FIRST_PORT <= port && port <= LAST_PORT
}

/// How selecting the single target device fails, on either transport. An
/// operation that needs exactly one matched device reports this before any
/// port I/O is attempted.
#[derive(Copy, Clone, Debug, PartialEq, Eq, Structural)]
pub enum SelectError {
    /// The enumeration filter matched no device.
    NotFound,
    /// The enumeration filter matched more than one device.
    Ambiguous,
}

impl SelectError {
    /// A short description of the failure, for the embedding application to
    /// render.
    pub fn message(&self) -> (r: String)
        ensures
            *self == SelectError::NotFound ==> r@ == "AltJack was not found"@,
            *self == SelectError::Ambiguous ==> r@
                == "more than one AltJack was found, please use --serial to specify one device"@,
    {
        match self {
            SelectError::NotFound => "AltJack was not found".to_owned(),
            SelectError::Ambiguous => "more than one AltJack was found, please use --serial to specify one device".to_owned(),
        }
    }
}

/// Every port operation, on either transport, rejects a port number outside
/// the usable range with its invalid-port error — so the application, which
/// only performs transfers for requests these operations hand it, performs
/// none for such a port.
pub proof fn lemma_invalid_port_rejected(p: usb_device::Port, response: Seq<u8>, powered: bool)
    requires
        !is_usable_port(p.port),
    ensures
        usb_device::spec_state_request(p) == Err::<usb_device::ControlRequest, usb_device::PortError>(
            usb_device::PortError::InvalidPort,
        ),
        usb_device::spec_state(p, response) == Err::<usb_device::PortState, usb_device::PortError>(
            usb_device::PortError::InvalidPort,
        ),
        usb_device::spec_on(p) == Err::<usb_device::ControlRequest, usb_device::PortError>(
            usb_device::PortError::InvalidPort,
        ),
        usb_device::spec_off(p) == Err::<usb_device::ControlRequest, usb_device::PortError>(
            usb_device::PortError::InvalidPort,
        ),
        usb_device::spec_toggle(p, powered) == Err::<
            usb_device::ControlRequest,
            usb_device::PortError,
        >(usb_device::PortError::InvalidPort),
{
}

/// A touch whose duration does not fit the report's 16 bit millisecond field
/// fails with the duration-overflow error, and one whose port is unusable
/// with the invalid-port error; in both cases no report exists for the
/// application to write.
pub proof fn lemma_touch_rejected(port: u8, duration_millis: u128)
    ensures
        !is_usable_port(port) ==> forall|m: u128|
            #[trigger] hid_device::spec_touch_error(port, m) == Some(
                hid_device::TouchError::InvalidPort,
            ),
        is_usable_port(port) && duration_millis > hid_device::MAX_TOUCH_MILLIS
            ==> hid_device::spec_touch_error(port, duration_millis) == Some(
            hid_device::TouchError::DurationTooLarge,
        ),
{
}

} // verus!
