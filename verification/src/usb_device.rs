//! Hub port power control over the USB transport.
//!
//! The embedding application enumerates the platform's USB devices and hands
//! each one to this module as a plain [`Candidate`] record; everything after
//! that — filtering, selecting the target device, framing the hub class
//! control requests, and decoding the port status words that come back — is
//! verified here. The application only moves the stated bytes and codes over
//! the wire: it issues each [`ControlRequest`] as a class-scoped,
//! other-recipient control transfer with a one second timeout, and returns
//! the raw response bytes.

use vstd::prelude::*;

use crate::SelectError;
use crate::is_usable_port;
use nusb::Speed as NusbSpeed;

verus! {

/// Request code of the hub class request that reads one port's status.
pub const GET_STATUS: u8 = 0x00;

/// Request code of the hub class request that clears a port feature.
pub const CLEAR_FEATURE: u8 = 0x01;

/// Request code of the hub class request that sets a port feature.
pub const SET_FEATURE: u8 = 0x03;

/// Feature selector for port power (bit 3), used with set/clear feature.
pub const PORT_POWER_FEATURE: u16 = 0x0008;

/// A status query returns exactly this many bytes.
pub const STATUS_RESPONSE_LEN: usize = 4;

/// Timeout, in seconds, that the application must apply to each transfer.
pub const USB_TIMEOUT_SECS: u64 = 1;

/// Status word bit: a device is connected to the port.
pub const STAT_CONNECTION: u16 = 0x0001;

/// Status word bit: the port is enabled.
pub const STAT_ENABLE: u16 = 0x0002;

/// Status word bit: the port reports an overcurrent condition.
pub const STAT_OVERCURRENT: u16 = 0x0008;

/// Status word bit: port power, as reported by USB 2.x (low/full/high) hubs.
pub const STAT_HS_POWER: u16 = 0x0100;

/// Status word bit: port power, as reported by USB 3.x (super speed) hubs.
pub const STAT_SS_POWER: u16 = 0x0200;

/// Closed classification of USB link speeds, in ascending bit rate.
#[derive(Copy, Clone, Debug, PartialEq, Eq, Structural, Hash)]
pub enum Speed {
    /// Low speed (1.5 Mbit)
    Low,
    /// Full speed (12 Mbit)
    Full,
    /// High speed (480 Mbit)
    High,
    /// Super speed (5000 Mbit)
    Super,
    /// Super speed plus (10000 Mbit)
    SuperPlus,
}

/// The speeds whose hubs report port power in the super speed status bit.
pub open spec fn spec_is_super(speed: Speed) -> bool {
    speed == Speed::Super || speed == Speed::SuperPlus
}

impl Speed {
    /// True for the USB 3.x speed classes, which use a different port-power
    /// status bit than the USB 2.x classes.
    pub fn is_super(&self) -> (r: bool)
        ensures
            r == spec_is_super(*self),
    {
        match self {
            Speed::Super | Speed::SuperPlus => true,
            _ => false,
        }
    }

    /// Maps a platform-reported link speed to the closed [`Speed`] set;
    /// anything outside that set maps to `None`.
    ///
    /// Relies on `nusb::Speed`: its variants are only told apart and moved
    /// into the library's own enum. Verus cannot look inside the outside
    /// enum, so nothing is specified of which variant yields which result.
    #[verifier::external_body]
    pub fn from_usb(speed: &NusbSpeed) -> Option<Speed> {
        match speed {
            NusbSpeed::Low => Some(Speed::Low),
            NusbSpeed::Full => Some(Speed::Full),
            NusbSpeed::High => Some(Speed::High),
            NusbSpeed::Super => Some(Speed::Super),
            NusbSpeed::SuperPlus => Some(Speed::SuperPlus),
            _ => None,
        }
    }
}

/// Declares the platform's link speed report type from `nusb`, so that
/// [`Speed::from_usb`] can take it; the type stays opaque to Verus.
#[verifier::external_type_specification]
#[verifier::external_body]
pub struct ExNusbSpeed(NusbSpeed);

/// What the platform reports of one USB device, before filtering. The
/// application builds one per enumerated device, in listing order.
pub struct Candidate {
    /// Vendor id.
    pub vid: u16,
    /// Product id.
    pub pid: u16,
    /// USB device class code.
    pub class: u8,
    /// Serial number; empty when the device reports none.
    pub serial: String,
    /// Link speed, when the platform reports one of the known classes.
    pub speed: Option<Speed>,
}

/// One discovered AltJack hub: a filtered candidate plus the position it had
/// in the platform listing, which the application uses to open it.
#[derive(Debug)]
pub struct DeviceInfo {
    /// Position of this device in the candidate listing handed to [`list`].
    pub index: usize,
    /// Vendor id.
    pub vid: u16,
    /// Product id.
    pub pid: u16,
    /// Serial number; empty when the device reports none.
    pub serial: String,
    /// Link speed, when known.
    pub speed: Option<Speed>,
}

/// The enumeration filter: AltJack vendor id, USB hub device class, and —
/// when a non-empty serial filter is given — an exact serial match. A device
/// that reports no serial number (an empty serial) is never matched by a
/// non-empty filter, so a requested serial can only select the device that
/// actually carries it.
pub open spec fn usb_match(c: Candidate, filter: Seq<char>) -> bool {
    &&& c.vid == crate::ALTJACK_VID
    &&& c.class == crate::USB_CLASS_HUB
    &&& (filter.len() == 0 || c.serial@ == filter)
}

/// The [`DeviceInfo`] that surfaces for the candidate at position `index`.
pub open spec fn info_of(c: Candidate, index: usize) -> DeviceInfo {
    DeviceInfo { index, vid: c.vid, pid: c.pid, serial: c.serial, speed: c.speed }
}

/// `r` is the filtered listing of `candidates` under `filter`: it holds
/// exactly the matching candidates, in listing order, each tagged with its
/// original position.
pub open spec fn is_filtered_listing(
    r: Seq<DeviceInfo>,
    candidates: Seq<Candidate>,
    filter: Seq<char>,
) -> bool {
    &&& forall|j: int|
        0 <= j < r.len() ==> {
            &&& (#[trigger] r[j]).index < candidates.len()
            &&& usb_match(candidates[r[j].index as int], filter)
            &&& r[j] == info_of(candidates[r[j].index as int], r[j].index)
        }
    &&& forall|j1: int, j2: int|
        0 <= j1 < j2 < r.len() ==> (#[trigger] r[j1]).index < (#[trigger] r[j2]).index
    &&& forall|i: int|
        0 <= i < candidates.len() && usb_match(candidates[i], filter) ==> exists|j: int|
            0 <= j < r.len() && (#[trigger] r[j]).index == i
}

/// True when the candidate passes the enumeration filter.
fn candidate_matches(c: &Candidate, serial: &str) -> (r: bool)
    ensures
        r == usb_match(*c, serial@),
{
    c.vid == crate::ALTJACK_VID && c.class == crate::USB_CLASS_HUB && (serial.is_empty()
        || c.serial == serial.to_owned())
}

/// Filters the platform's device listing down to the AltJack hubs that match
/// the serial filter; an empty filter matches every AltJack hub. An empty
/// result is not an error.
pub fn list(candidates: &Vec<Candidate>, serial: &str) -> (r: Vec<DeviceInfo>)
    ensures
        is_filtered_listing(r@, candidates@, serial@),
{
    let mut out: Vec<DeviceInfo> = Vec::new();
    let mut i: usize = 0;
    while i < candidates.len()
        invariant
            i <= candidates@.len(),
            forall|j: int|
                0 <= j < out@.len() ==> {
                    &&& (#[trigger] out@[j]).index < i
                    &&& usb_match(candidates@[out@[j].index as int], serial@)
                    &&& out@[j] == info_of(candidates@[out@[j].index as int], out@[j].index)
                },
            forall|j1: int, j2: int|
                0 <= j1 < j2 < out@.len() ==> (#[trigger] out@[j1]).index
                    < (#[trigger] out@[j2]).index,
            forall|k: int|
                0 <= k < i && usb_match(candidates@[k], serial@) ==> exists|j: int|
                    0 <= j < out@.len() && (#[trigger] out@[j]).index == k,
        decreases candidates@.len() - i,
    {
        let ghost prev = out@;
        let c = &candidates[i];
        if candidate_matches(c, serial) {
            out.push(
                DeviceInfo {
                    index: i,
                    vid: c.vid,
                    pid: c.pid,
                    serial: c.serial.clone(),
                    speed: c.speed,
                },
            );
        }
        proof {
            assert forall|k: int|
                0 <= k < i + 1 && usb_match(candidates@[k], serial@) implies exists|j: int|
                0 <= j < out@.len() && (#[trigger] out@[j]).index == k by {
                if k == i {
                    assert(out@[out@.len() - 1].index == k);
                } else {
                    let j = choose|j: int|
                        0 <= j < prev.len() && (#[trigger] prev[j]).index == k;
                    assert(out@[j].index == k);
                }
            }
        }
        i = i + 1;
    }
    out
}

/// No candidate passes the filter.
pub open spec fn no_usb_match(candidates: Seq<Candidate>, filter: Seq<char>) -> bool {
    forall|i: int| 0 <= i < candidates.len() ==> !usb_match(#[trigger] candidates[i], filter)
}

/// At least two candidates pass the filter.
pub open spec fn ambiguous_usb_match(candidates: Seq<Candidate>, filter: Seq<char>) -> bool {
    exists|i1: int, i2: int|
        0 <= i1 < i2 < candidates.len() && usb_match(#[trigger] candidates[i1], filter)
            && usb_match(#[trigger] candidates[i2], filter)
}

/// Selects the one AltJack hub that an operation will target: fails when the
/// filter matches no device or more than one, before any port I/O. The
/// application then opens the device at the returned listing position.
pub fn open_usb_device(candidates: &Vec<Candidate>, serial: &str) -> (r: Result<
    DeviceInfo,
    SelectError,
>)
    ensures
        r == Err::<DeviceInfo, SelectError>(SelectError::NotFound) <==> no_usb_match(
            candidates@,
            serial@,
        ),
        r == Err::<DeviceInfo, SelectError>(SelectError::Ambiguous) <==> ambiguous_usb_match(
            candidates@,
            serial@,
        ),
        r matches Ok(d) ==> {
            &&& d.index < candidates@.len()
            &&& usb_match(candidates@[d.index as int], serial@)
            &&& d == info_of(candidates@[d.index as int], d.index)
            &&& forall|i: int|
                0 <= i < candidates@.len() && i != d.index ==> !usb_match(
                    #[trigger] candidates@[i],
                    serial@,
                )
        },
{
    let mut found = list(candidates, serial);
    if found.len() == 0 {
        proof {
            assert forall|i: int|
                0 <= i < candidates@.len() implies !usb_match(
                #[trigger] candidates@[i],
                serial@,
            ) by {
                if usb_match(candidates@[i], serial@) {
                    assert(exists|j: int| 0 <= j < found@.len() && (#[trigger] found@[j]).index == i);
                }
            }
        }
        Err(SelectError::NotFound)
    } else if found.len() == 1 {
        let d = found.pop().unwrap();
        proof {
            assert(d == found@.push(d)[0]);
            assert forall|i: int|
                0 <= i < candidates@.len() && i != d.index implies !usb_match(
                #[trigger] candidates@[i],
                serial@,
            ) by {
                if usb_match(candidates@[i], serial@) {
                    let j = choose|j: int|
                        0 <= j < found@.push(d).len() && (#[trigger] found@.push(d)[j]).index == i;
                    assert(found@.push(d)[j] == d);
                }
            }
            assert(!no_usb_match(candidates@, serial@)) by {
                assert(usb_match(candidates@[d.index as int], serial@));
            }
            assert(!ambiguous_usb_match(candidates@, serial@));
        }
        Ok(d)
    } else {
        proof {
            let r0 = found@[0];
            let r1 = found@[1];
            assert(r0.index < r1.index);
            assert(usb_match(candidates@[r0.index as int], serial@));
            assert(usb_match(candidates@[r1.index as int], serial@));
            assert(ambiguous_usb_match(candidates@, serial@));
            assert(!no_usb_match(candidates@, serial@));
        }
        Err(SelectError::Ambiguous)
    }
}

/// Whether a device opened from a snapshot with this speed uses the super
/// speed power bit.
pub open spec fn spec_super_speed(speed: Option<Speed>) -> bool {
    match speed {
        Some(s) => spec_is_super(s),
        None => false,
    }
}

impl DeviceInfo {
    /// Derives the protocol state of a session opened on this device:
    /// `super_speed` is fixed here, once, and governs which status bit is
    /// read as "powered" for every later port operation. The platform-level
    /// open — which may fail with an open error — is performed by the
    /// application, which pairs its live handle with the returned [`Device`].
    pub fn open(&self) -> (d: Device)
        ensures
            d.super_speed == spec_super_speed(self.speed),
    {
        let super_speed = match self.speed {
            Some(Speed::Super) | Some(Speed::SuperPlus) => true,
            _ => false,
        };
        Device { super_speed }
    }
}

/// An opened hub session's protocol state. The live platform handle is owned
/// by the application; the decoding of every port operation on the session
/// depends only on this state.
pub struct Device {
    /// True iff the session was opened at super speed or super speed plus.
    pub super_speed: bool,
}

impl Device {
    /// A handle for one numbered port of this session. No status is cached:
    /// every query re-reads from hardware.
    pub fn port(&self, port: u8) -> (p: Port)
        ensures
            p == (Port { port, super_speed: self.super_speed }),
    {
        Port { port, super_speed: self.super_speed }
    }

    /// Handles for all usable ports, in ascending order.
    pub fn ports(&self) -> (r: Vec<Port>)
        ensures
            r@.len() == crate::LAST_PORT - crate::FIRST_PORT + 1,
            forall|i: int|
                0 <= i < r@.len() ==> r@[i] == (Port {
                    port: (crate::FIRST_PORT + i) as u8,
                    super_speed: self.super_speed,
                }),
    {
        let mut v: Vec<Port> = Vec::new();
        let mut n: u8 = crate::FIRST_PORT;
        while n <= crate::LAST_PORT
            invariant
                crate::FIRST_PORT <= n <= crate::LAST_PORT + 1,
                v@.len() == n - crate::FIRST_PORT,
                forall|i: int|
                    0 <= i < v@.len() ==> v@[i] == (Port {
                        port: (crate::FIRST_PORT + i) as u8,
                        super_speed: self.super_speed,
                    }),
            decreases crate::LAST_PORT + 1 - n,
        {
            v.push(Port { port: n, super_speed: self.super_speed });
            n = n + 1;
        }
        v
    }
}

/// Identifies one port of an opened session. Operations on it build the
/// control request the application must issue, or decode what came back;
/// each one rejects a port number outside the usable range before any
/// transport I/O can happen.
#[derive(Copy, Clone, Debug, PartialEq, Eq, Structural)]
pub struct Port {
    /// Port number, usable when within `FIRST_PORT..=LAST_PORT`.
    pub port: u8,
    /// Copied from the owning session at creation.
    pub super_speed: bool,
}

/// Parameters of one hub class control request, issued class-scoped to
/// recipient "other" (the port) with a one second timeout. A status query
/// reads [`STATUS_RESPONSE_LEN`] bytes; set/clear feature carry no data.
#[derive(Copy, Clone, Debug, PartialEq, Eq, Structural)]
pub struct ControlRequest {
    /// Request code.
    pub request: u8,
    /// Request value: a feature selector, or zero for a status query.
    pub value: u16,
    /// Request index: the port number.
    pub index: u16,
}

/// How a port operation fails before or after the transfer itself.
#[derive(Copy, Clone, Debug, PartialEq, Eq, Structural)]
pub enum PortError {
    /// The port number lies outside the usable range; nothing was issued.
    InvalidPort,
    /// The status query returned something other than exactly four bytes.
    ShortResponse,
}

impl PortError {
    /// A short description of the failure, for the embedding application to
    /// render.
    pub fn message(&self) -> (r: String)
        ensures
            *self == PortError::InvalidPort ==> r@ == "invalid port"@,
            *self == PortError::ShortResponse ==> r@ == "short status response"@,
    {
        match self {
            PortError::InvalidPort => "invalid port".to_owned(),
            PortError::ShortResponse => "short status response".to_owned(),
        }
    }
}

/// Result of one status query: the raw word and the booleans decoded from it.
#[derive(Copy, Clone, Debug, PartialEq, Eq, Structural)]
pub struct PortState {
    /// The queried port number.
    pub port: u8,
    /// The raw 16 bit status word, assembled little-endian from the first
    /// two response bytes.
    pub status: u16,
    /// The speed-selected power bit is set.
    pub powered: bool,
    /// [`STAT_CONNECTION`] is set.
    pub connected: bool,
    /// [`STAT_ENABLE`] is set.
    pub enabled: bool,
    /// [`STAT_OVERCURRENT`] is set.
    pub overcurrent: bool,
}

/// The status bit that means "powered" for this session's speed class.
pub open spec fn power_mask(super_speed: bool) -> u16 {
    if super_speed {
        STAT_SS_POWER
    } else {
        STAT_HS_POWER
    }
}

/// The status word assembled from its two little-endian bytes.
pub open spec fn word_from_le(b0: u8, b1: u8) -> u16 {
    (b0 as u16) | ((b1 as u16) << 8)
}

/// What a status word means for one port: connected, enabled and overcurrent
/// come from fixed bits of the raw word regardless of power state, and
/// powered from the speed-selected bit.
pub open spec fn spec_decode(port: u8, status: u16, super_speed: bool) -> PortState {
    PortState {
        port,
        status,
        powered: status & power_mask(super_speed) != 0,
        connected: status & STAT_CONNECTION != 0,
        enabled: status & STAT_ENABLE != 0,
        overcurrent: status & STAT_OVERCURRENT != 0,
    }
}

/// The control request that reads one port's status.
pub open spec fn status_request(port: u8) -> ControlRequest {
    ControlRequest { request: GET_STATUS, value: 0, index: port as u16 }
}

/// The control request that powers one port on.
pub open spec fn on_request(port: u8) -> ControlRequest {
    ControlRequest { request: SET_FEATURE, value: PORT_POWER_FEATURE, index: port as u16 }
}

/// The control request that powers one port off.
pub open spec fn off_request(port: u8) -> ControlRequest {
    ControlRequest { request: CLEAR_FEATURE, value: PORT_POWER_FEATURE, index: port as u16 }
}

/// What [`Port::state_request`] returns.
pub open spec fn spec_state_request(p: Port) -> Result<ControlRequest, PortError> {
    if is_usable_port(p.port) {
        Ok(status_request(p.port))
    } else {
        Err(PortError::InvalidPort)
    }
}

/// What [`Port::state`] returns for given response bytes.
pub open spec fn spec_state(p: Port, response: Seq<u8>) -> Result<PortState, PortError> {
    if !is_usable_port(p.port) {
        Err(PortError::InvalidPort)
    } else if response.len() != STATUS_RESPONSE_LEN {
        Err(PortError::ShortResponse)
    } else {
        Ok(spec_decode(p.port, word_from_le(response[0], response[1]), p.super_speed))
    }
}

/// What [`Port::on`] returns.
pub open spec fn spec_on(p: Port) -> Result<ControlRequest, PortError> {
    if is_usable_port(p.port) {
        Ok(on_request(p.port))
    } else {
        Err(PortError::InvalidPort)
    }
}

/// What [`Port::off`] returns.
pub open spec fn spec_off(p: Port) -> Result<ControlRequest, PortError> {
    if is_usable_port(p.port) {
        Ok(off_request(p.port))
    } else {
        Err(PortError::InvalidPort)
    }
}

/// What [`Port::toggle`] returns: the request that inverts the given state.
pub open spec fn spec_toggle(p: Port, powered: bool) -> Result<ControlRequest, PortError> {
    if powered {
        spec_off(p)
    } else {
        spec_on(p)
    }
}

impl PortState {
    /// Decodes a raw status word for one port under the session's speed
    /// class. All four booleans are always derived from the raw word; none
    /// is zeroed when the port is unpowered.
    pub fn decode(port: u8, status: u16, super_speed: bool) -> (r: PortState)
        ensures
            r == spec_decode(port, status, super_speed),
    {
        let mask: u16 = if super_speed {
            STAT_SS_POWER
        } else {
            STAT_HS_POWER
        };
        PortState {
            port,
            status,
            powered: status & mask != 0,
            connected: status & STAT_CONNECTION != 0,
            enabled: status & STAT_ENABLE != 0,
            overcurrent: status & STAT_OVERCURRENT != 0,
        }
    }
}

impl Port {
    /// The status query to issue for this port: a control-IN request reading
    /// exactly four bytes. Rejects an unusable port number before any I/O.
    pub fn state_request(&self) -> (r: Result<ControlRequest, PortError>)
        ensures
            r == spec_state_request(*self),
    {
        if crate::usable_port(self.port) {
            Ok(ControlRequest { request: GET_STATUS, value: 0, index: self.port as u16 })
        } else {
            Err(PortError::InvalidPort)
        }
    }

    /// Interprets what the status query transfer returned: anything other
    /// than exactly four bytes is a short response; otherwise the first two
    /// bytes, read little-endian, are decoded under the session's speed
    /// class.
    pub fn state(&self, response: &Vec<u8>) -> (r: Result<PortState, PortError>)
        ensures
            r == spec_state(*self, response@),
    {
        if !crate::usable_port(self.port) {
            Err(PortError::InvalidPort)
        } else if response.len() != STATUS_RESPONSE_LEN {
            Err(PortError::ShortResponse)
        } else {
            let word = (response[0] as u16) | ((response[1] as u16) << 8u16);
            Ok(PortState::decode(self.port, word, self.super_speed))
        }
    }

    /// The control-OUT request that powers this port on (set feature, port
    /// power). Success of the transfer confirms only that the request
    /// completed; no state is re-read. Rejects an unusable port before I/O.
    pub fn on(&self) -> (r: Result<ControlRequest, PortError>)
        ensures
            r == spec_on(*self),
    {
        if crate::usable_port(self.port) {
            Ok(
                ControlRequest {
                    request: SET_FEATURE,
                    value: PORT_POWER_FEATURE,
                    index: self.port as u16,
                },
            )
        } else {
            Err(PortError::InvalidPort)
        }
    }

    /// The control-OUT request that powers this port off (clear feature,
    /// port power). Rejects an unusable port before I/O.
    pub fn off(&self) -> (r: Result<ControlRequest, PortError>)
        ensures
            r == spec_off(*self),
    {
        if crate::usable_port(self.port) {
            Ok(
                ControlRequest {
                    request: CLEAR_FEATURE,
                    value: PORT_POWER_FEATURE,
                    index: self.port as u16,
                },
            )
        } else {
            Err(PortError::InvalidPort)
        }
    }

    /// The request that inverts the given observed power state: off when
    /// powered, on when not. The caller composes this with a fresh status
    /// read; the pair is best-effort, not atomic, against live hardware.
    pub fn toggle(&self, powered: bool) -> (r: Result<ControlRequest, PortError>)
        ensures
            r == spec_toggle(*self, powered),
    {
        if powered {
            self.off()
        } else {
            self.on()
        }
    }
}

/// The status word of a hub that honors power requests: set feature for port
/// power sets the power bit the session's speed class reports, clear feature
/// clears it, and any other request leaves the word unchanged.
pub open spec fn sim_hub_apply(word: u16, super_speed: bool, req: ControlRequest) -> u16 {
    if req.request == SET_FEATURE && req.value == PORT_POWER_FEATURE {
        word | power_mask(super_speed)
    } else if req.request == CLEAR_FEATURE && req.value == PORT_POWER_FEATURE {
        word & !power_mask(super_speed)
    } else {
        word
    }
}

/// The four bytes a hub returns for a status word: the word little-endian,
/// then two change-status bytes, zero here.
pub open spec fn status_response_bytes(word: u16) -> Seq<u8> {
    seq![(word & 0xff) as u8, ((word >> 8) & 0xff) as u8, 0x00u8, 0x00u8]
}

/// Decoding reads each flag from its fixed bit of the raw word, whatever the
/// speed class; only the bit read as "powered" depends on it, the super
/// speed power bit exactly for the super speed classes.
pub proof fn lemma_decode_flags(port: u8, status: u16, speed: Speed)
    ensures
        spec_decode(port, status, spec_is_super(speed)).connected == (status & STAT_CONNECTION
            != 0),
        spec_decode(port, status, spec_is_super(speed)).enabled == (status & STAT_ENABLE != 0),
        spec_decode(port, status, spec_is_super(speed)).overcurrent == (status & STAT_OVERCURRENT
            != 0),
        spec_is_super(speed) ==> spec_decode(port, status, spec_is_super(speed)).powered == (status
            & STAT_SS_POWER != 0),
        !spec_is_super(speed) ==> spec_decode(port, status, spec_is_super(speed)).powered == (
        status & STAT_HS_POWER != 0),
{
}

/// Round trip against a hub that honors power requests: whatever the status
/// word held before, powering a usable port on and then reading its status
/// reports it powered, and powering it off reports it unpowered.
pub proof fn lemma_power_round_trip(word: u16, p: Port)
    requires
        is_usable_port(p.port),
    ensures
        spec_on(p) == Ok::<ControlRequest, PortError>(on_request(p.port)),
        spec_off(p) == Ok::<ControlRequest, PortError>(off_request(p.port)),
        spec_state(p, status_response_bytes(sim_hub_apply(word, p.super_speed, on_request(p.port))))
            matches Ok(st) && st.powered,
        spec_state(
            p,
            status_response_bytes(sim_hub_apply(word, p.super_speed, off_request(p.port))),
        ) matches Ok(st) && !st.powered,
{
    let w_on = sim_hub_apply(word, p.super_speed, on_request(p.port));
    let w_off = sim_hub_apply(word, p.super_speed, off_request(p.port));
    assert(word_from_le((w_on & 0xff) as u8, ((w_on >> 8) & 0xff) as u8) == w_on) by (bit_vector);
    assert(word_from_le((w_off & 0xff) as u8, ((w_off >> 8) & 0xff) as u8) == w_off)
        by (bit_vector);
    if p.super_speed {
        assert((word | STAT_SS_POWER) & STAT_SS_POWER != 0) by (bit_vector);
        assert((word & !STAT_SS_POWER) & STAT_SS_POWER == 0) by (bit_vector);
    } else {
        assert((word | STAT_HS_POWER) & STAT_HS_POWER != 0) by (bit_vector);
        assert((word & !STAT_HS_POWER) & STAT_HS_POWER == 0) by (bit_vector);
    }
}

} // verus!
