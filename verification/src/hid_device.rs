//! Touch control over the vendor HID report protocol.
//!
//! A "touch" pulses one port for a bounded duration through an auxiliary
//! microcontroller reached over HID. The embedding application owns the HID
//! subsystem handle and moves the bytes; this module frames the eight byte
//! output report, validates port and duration before any I/O, decides how a
//! discovered device is to be opened, and maps the microcontroller's
//! acknowledgement byte to a typed result.

use vstd::prelude::*;

use crate::SelectError;
use crate::is_usable_port;

verus! {

/// Command code for "write and stop" in the vendor HID protocol.
pub const HID_WRITE_STOP_CMD: u8 = 0x02;

/// Bus address of the auxiliary microcontroller behind the HID bridge.
pub const ATTINY_ADDR: u8 = 0x60;

/// Payload length field of the touch report.
pub const TOUCH_PAYLOAD_LEN: u8 = 0x03;

/// An output report is exactly this many bytes, report id included.
pub const TOUCH_REPORT_LEN: usize = 8;

/// The acknowledgement input report is this many bytes; its first byte is
/// the status code.
pub const TOUCH_RESPONSE_LEN: usize = 64;

/// Longest touch duration, in milliseconds, that the report can encode.
pub const MAX_TOUCH_MILLIS: u128 = 65535;

/// What the platform's HID subsystem reports of one device, before
/// filtering. The application builds one per enumerated device, in listing
/// order.
#[derive(Debug)]
pub struct Candidate {
    /// Vendor id.
    pub vid: u16,
    /// Product id.
    pub pid: u16,
    /// Serial number; empty when the device reports none.
    pub serial: String,
    /// True when the platform reported a non-empty device path.
    pub has_path: bool,
}

/// One discovered AltJack touch controller: a filtered candidate plus the
/// position it had in the platform listing, which the application uses to
/// reach the platform's record again when opening.
#[derive(Debug)]
pub struct DeviceInfo {
    /// Position of this device in the candidate listing handed to [`list`].
    pub index: usize,
    /// Vendor id.
    pub vid: u16,
    /// Product id.
    pub pid: u16,
    /// Serial number; empty when the device reports none.
    pub serial: String,
    /// True when the platform reported a non-empty device path.
    pub has_path: bool,
}

/// The HID enumeration filter: AltJack vendor id and — when a non-empty
/// serial filter is given — an exact serial match. A device that reports no
/// serial number (an empty serial) is never matched by a non-empty filter.
/// The HID transport does not filter on a device class.
pub open spec fn hid_match(c: Candidate, filter: Seq<char>) -> bool {
    &&& c.vid == crate::ALTJACK_VID
    &&& (filter.len() == 0 || c.serial@ == filter)
}

/// The [`DeviceInfo`] that surfaces for the candidate at position `index`.
pub open spec fn info_of(c: Candidate, index: usize) -> DeviceInfo {
    DeviceInfo { index, vid: c.vid, pid: c.pid, serial: c.serial, has_path: c.has_path }
}

/// `r` is the filtered listing of `candidates` under `filter`: it holds
/// exactly the matching candidates, in listing order, each tagged with its
/// original position.
pub open spec fn is_filtered_listing(
    r: Seq<DeviceInfo>,
    candidates: Seq<Candidate>,
    filter: Seq<char>,
) -> bool {
    &&& forall|j: int|
        0 <= j < r.len() ==> {
            &&& (#[trigger] r[j]).index < candidates.len()
            &&& hid_match(candidates[r[j].index as int], filter)
            &&& r[j] == info_of(candidates[r[j].index as int], r[j].index)
        }
    &&& forall|j1: int, j2: int|
        0 <= j1 < j2 < r.len() ==> (#[trigger] r[j1]).index < (#[trigger] r[j2]).index
    &&& forall|i: int|
        0 <= i < candidates.len() && hid_match(candidates[i], filter) ==> exists|j: int|
            0 <= j < r.len() && (#[trigger] r[j]).index == i
}

/// True when the candidate passes the HID enumeration filter.
fn candidate_matches(c: &Candidate, serial: &str) -> (r: bool)
    ensures
        r == hid_match(*c, serial@),
{
    c.vid == crate::ALTJACK_VID && (serial.is_empty() || c.serial == serial.to_owned())
}

/// Filters the HID device listing down to the AltJack devices that match the
/// serial filter; an empty filter matches every AltJack device. An empty
/// result is not an error.
pub fn list(candidates: &Vec<Candidate>, serial: &str) -> (r: Vec<DeviceInfo>)
    ensures
        is_filtered_listing(r@, candidates@, serial@),
{
    let mut out: Vec<DeviceInfo> = Vec::new();
    let mut i: usize = 0;
    while i < candidates.len()
        invariant
            i <= candidates@.len(),
            forall|j: int|
                0 <= j < out@.len() ==> {
                    &&& (#[trigger] out@[j]).index < i
                    &&& hid_match(candidates@[out@[j].index as int], serial@)
                    &&& out@[j] == info_of(candidates@[out@[j].index as int], out@[j].index)
                },
            forall|j1: int, j2: int|
                0 <= j1 < j2 < out@.len() ==> (#[trigger] out@[j1]).index
                    < (#[trigger] out@[j2]).index,
            forall|k: int|
                0 <= k < i && hid_match(candidates@[k], serial@) ==> exists|j: int|
                    0 <= j < out@.len() && (#[trigger] out@[j]).index == k,
        decreases candidates@.len() - i,
    {
        let ghost prev = out@;
        let c = &candidates[i];
        if candidate_matches(c, serial) {
            out.push(
                DeviceInfo {
                    index: i,
                    vid: c.vid,
                    pid: c.pid,
                    serial: c.serial.clone(),
                    has_path: c.has_path,
                },
            );
        }
        proof {
            assert forall|k: int|
                0 <= k < i + 1 && hid_match(candidates@[k], serial@) implies exists|j: int|
                0 <= j < out@.len() && (#[trigger] out@[j]).index == k by {
                if k == i {
                    assert(out@[out@.len() - 1].index == k);
                } else {
                    let j = choose|j: int|
                        0 <= j < prev.len() && (#[trigger] prev[j]).index == k;
                    assert(out@[j].index == k);
                }
            }
        }
        i = i + 1;
    }
    out
}

/// No candidate passes the HID filter.
pub open spec fn no_hid_match(candidates: Seq<Candidate>, filter: Seq<char>) -> bool {
    forall|i: int| 0 <= i < candidates.len() ==> !hid_match(#[trigger] candidates[i], filter)
}

/// At least two candidates pass the HID filter.
pub open spec fn ambiguous_hid_match(candidates: Seq<Candidate>, filter: Seq<char>) -> bool {
    exists|i1: int, i2: int|
        0 <= i1 < i2 < candidates.len() && hid_match(#[trigger] candidates[i1], filter)
            && hid_match(#[trigger] candidates[i2], filter)
}

/// Selects the one AltJack touch controller that an operation will target:
/// fails when the filter matches no device or more than one, before any I/O.
/// The application then opens the selected device as its [`DeviceInfo::open`]
/// plan says.
pub fn open_hid_device(candidates: &Vec<Candidate>, serial: &str) -> (r: Result<
    DeviceInfo,
    SelectError,
>)
    ensures
        r == Err::<DeviceInfo, SelectError>(SelectError::NotFound) <==> no_hid_match(
            candidates@,
            serial@,
        ),
        r == Err::<DeviceInfo, SelectError>(SelectError::Ambiguous) <==> ambiguous_hid_match(
            candidates@,
            serial@,
        ),
        r matches Ok(d) ==> {
            &&& d.index < candidates@.len()
            &&& hid_match(candidates@[d.index as int], serial@)
            &&& d == info_of(candidates@[d.index as int], d.index)
            &&& forall|i: int|
                0 <= i < candidates@.len() && i != d.index ==> !hid_match(
                    #[trigger] candidates@[i],
                    serial@,
                )
        },
{
    let mut found = list(candidates, serial);
    if found.len() == 0 {
        proof {
            assert forall|i: int|
                0 <= i < candidates@.len() implies !hid_match(
                #[trigger] candidates@[i],
                serial@,
            ) by {
                if hid_match(candidates@[i], serial@) {
                    assert(exists|j: int| 0 <= j < found@.len() && (#[trigger] found@[j]).index == i);
                }
            }
        }
        Err(SelectError::NotFound)
    } else if found.len() == 1 {
        let d = found.pop().unwrap();
        proof {
            assert(d == found@.push(d)[0]);
            assert forall|i: int|
                0 <= i < candidates@.len() && i != d.index implies !hid_match(
                #[trigger] candidates@[i],
                serial@,
            ) by {
                if hid_match(candidates@[i], serial@) {
                    let j = choose|j: int|
                        0 <= j < found@.push(d).len() && (#[trigger] found@.push(d)[j]).index == i;
                    assert(found@.push(d)[j] == d);
                }
            }
            assert(!no_hid_match(candidates@, serial@)) by {
                assert(hid_match(candidates@[d.index as int], serial@));
            }
            assert(!ambiguous_hid_match(candidates@, serial@));
        }
        Ok(d)
    } else {
        proof {
            let r0 = found@[0];
            let r1 = found@[1];
            assert(r0.index < r1.index);
            assert(hid_match(candidates@[r0.index as int], serial@));
            assert(hid_match(candidates@[r1.index as int], serial@));
            assert(ambiguous_hid_match(candidates@, serial@));
            assert(!no_hid_match(candidates@, serial@));
        }
        Err(SelectError::Ambiguous)
    }
}

/// How the application must open a discovered device.
#[derive(Copy, Clone, Debug, PartialEq, Eq, Structural)]
pub enum OpenMethod {
    /// Open by the platform device path the listing reported.
    ByPath,
    /// Open by the (vendor id, product id, serial) triple.
    BySerial,
}

/// A discovered device that can be opened neither way.
#[derive(Copy, Clone, Debug, PartialEq, Eq, Structural)]
pub enum OpenError {
    /// The listing reported neither a device path nor a serial number.
    UnidentifiedDevice,
}

impl OpenError {
    /// A short description of the failure, for the embedding application to
    /// render.
    pub fn message(&self) -> (r: String)
        ensures
            r@ == "unexpected device info"@,
    {
        "unexpected device info".to_owned()
    }
}

impl DeviceInfo {
    /// Decides how the application is to open this device: by its platform
    /// path when the listing reported one, else by its (vendor id, product
    /// id, serial) triple, and neither way when both identifiers are absent.
    pub fn open(&self) -> (r: Result<OpenMethod, OpenError>)
        ensures
            self.has_path ==> r == Ok::<OpenMethod, OpenError>(OpenMethod::ByPath),
            !self.has_path && self.serial@.len() != 0 ==> r == Ok::<OpenMethod, OpenError>(
                OpenMethod::BySerial,
            ),
            !self.has_path && self.serial@.len() == 0 ==> r == Err::<OpenMethod, OpenError>(
                OpenError::UnidentifiedDevice,
            ),
    {
        if self.has_path {
            Ok(OpenMethod::ByPath)
        } else if !self.serial.as_str().is_empty() {
            Ok(OpenMethod::BySerial)
        } else {
            Err(OpenError::UnidentifiedDevice)
        }
    }
}

/// How a touch fails, before any I/O or as reported by the microcontroller.
#[derive(Copy, Clone, Debug, PartialEq, Eq, Structural)]
pub enum TouchError {
    /// The port number lies outside the usable range; nothing was written.
    InvalidPort,
    /// The duration does not fit the 16 bit millisecond field; nothing was
    /// written.
    DurationTooLarge,
    /// The microcontroller reported a timeout.
    RemoteTimeout,
    /// The microcontroller rejected the bus address.
    InvalidAddress,
    /// The microcontroller rejected the payload.
    InvalidData,
    /// The microcontroller answered with an unknown status code.
    Unknown,
}

/// The description of each touch failure.
pub open spec fn spec_touch_message(e: TouchError) -> Seq<char> {
    match e {
        TouchError::InvalidPort => "invalid port"@,
        TouchError::DurationTooLarge => "duration too large"@,
        TouchError::RemoteTimeout => "read: timeout"@,
        TouchError::InvalidAddress => "read: invalid addr"@,
        TouchError::InvalidData => "read: invalid data"@,
        TouchError::Unknown => "read: unknown error"@,
    }
}

impl TouchError {
    /// A short description of the failure, for the embedding application to
    /// render.
    pub fn message(&self) -> (r: String)
        ensures
            r@ == spec_touch_message(*self),
    {
        match self {
            TouchError::InvalidPort => "invalid port".to_owned(),
            TouchError::DurationTooLarge => "duration too large".to_owned(),
            TouchError::RemoteTimeout => "read: timeout".to_owned(),
            TouchError::InvalidAddress => "read: invalid addr".to_owned(),
            TouchError::InvalidData => "read: invalid data".to_owned(),
            TouchError::Unknown => "read: unknown error".to_owned(),
        }
    }
}

/// The eight byte output report that touches `port` for `millis`
/// milliseconds: report id, write-and-stop command, microcontroller address,
/// payload length, a reserved byte, the zero-based port index, and the
/// duration little-endian.
pub open spec fn touch_report(port: u8, millis: u16) -> Seq<u8>
    recommends
        is_usable_port(port),
{
    seq![
        0x00u8,
        HID_WRITE_STOP_CMD,
        ATTINY_ADDR,
        TOUCH_PAYLOAD_LEN,
        0x00u8,
        (port - 1) as u8,
        (millis & 0xff) as u8,
        ((millis >> 8) & 0xff) as u8,
    ]
}

/// Why a touch is rejected before any I/O, if it is: an unusable port is
/// checked first, then a duration that does not fit the report's 16 bit
/// millisecond field.
pub open spec fn spec_touch_error(port: u8, millis: u128) -> Option<TouchError> {
    if !is_usable_port(port) {
        Some(TouchError::InvalidPort)
    } else if millis > MAX_TOUCH_MILLIS {
        Some(TouchError::DurationTooLarge)
    } else {
        None
    }
}

/// Builds the touch output report, rejecting an unusable port and then an
/// unencodable duration before any I/O. The application writes the report,
/// reads the [`TOUCH_RESPONSE_LEN`] byte acknowledgement, and hands its
/// first byte to [`touch_response`].
pub fn touch_request(port: u8, duration_millis: u128) -> (r: Result<[u8; 8], TouchError>)
    ensures
        spec_touch_error(port, duration_millis) matches Some(e) ==> r == Err::<[u8; 8], TouchError>(
            e,
        ),
        spec_touch_error(port, duration_millis) is None ==> (r matches Ok(rep) && rep@
            == touch_report(port, duration_millis as u16)),
{
    if !crate::usable_port(port) {
        return Err(TouchError::InvalidPort);
    }
    if duration_millis > MAX_TOUCH_MILLIS {
        return Err(TouchError::DurationTooLarge);
    }
    let millis: u16 = duration_millis as u16;
    let report: [u8; 8] = [
        0x00,
        HID_WRITE_STOP_CMD,
        ATTINY_ADDR,
        TOUCH_PAYLOAD_LEN,
        0x00,
        port - 1,
        (millis & 0xff) as u8,
        ((millis >> 8) & 0xff) as u8,
    ];
    proof {
        assert(report@ =~= touch_report(port, millis));
    }
    Ok(report)
}

/// What each acknowledgement status byte means.
pub open spec fn spec_touch_status(status: u8) -> Result<(), TouchError> {
    if status == 0x00 {
        Ok(())
    } else if status == 0x01 {
        Err(TouchError::RemoteTimeout)
    } else if status == 0x02 {
        Err(TouchError::InvalidAddress)
    } else if status == 0x03 {
        Err(TouchError::InvalidData)
    } else {
        Err(TouchError::Unknown)
    }
}

/// Maps the first byte of the acknowledgement input report to the touch's
/// result: success, one of the three named microcontroller failures, or the
/// catch-all for any other code. Nothing is retried.
pub fn touch_response(status: u8) -> (r: Result<(), TouchError>)
    ensures
        r == spec_touch_status(status),
{
    match status {
        0x00 => Ok(()),
        0x01 => Err(TouchError::RemoteTimeout),
        0x02 => Err(TouchError::InvalidAddress),
        0x03 => Err(TouchError::InvalidData),
        _ => Err(TouchError::Unknown),
    }
}

} // verus!
