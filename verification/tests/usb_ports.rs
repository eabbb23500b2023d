use altjack::usb_device::{ControlRequest, Device, DeviceInfo, PortError, PortState, Speed};

fn usb_info(speed: Option<Speed>) -> DeviceInfo {
    DeviceInfo { index: 0, vid: 0x0451, pid: 0x1234, serial: String::new(), speed }
}

#[test]
fn decode_status_word_high_speed() {
    let st = PortState::decode(1, 0x0103, false);
    assert_eq!(st.port, 1);
    assert_eq!(st.status, 0x0103);
    assert!(st.connected);
    assert!(st.enabled);
    assert!(!st.overcurrent);
    assert!(st.powered);
}

#[test]
fn decode_status_word_super_speed() {
    let st = PortState::decode(1, 0x0203, true);
    assert!(st.connected);
    assert!(st.enabled);
    assert!(!st.overcurrent);
    assert!(st.powered);
    // The high-speed power bit does not govern a super-speed session.
    let st_hs_bit = PortState::decode(1, 0x0103, true);
    assert!(!st_hs_bit.powered);
    // And the super-speed power bit does not govern a high-speed session.
    let st_ss_bit = PortState::decode(1, 0x0203, false);
    assert!(!st_ss_bit.powered);
}

#[test]
fn decode_flags_follow_bits() {
    let words = [0x0000u16, 0x0001, 0x0002, 0x0008, 0x0100, 0x0200, 0x030b, 0xffff];
    let speeds = [Speed::Low, Speed::Full, Speed::High, Speed::Super, Speed::SuperPlus];
    for &w in &words {
        for &s in &speeds {
            let super_speed = s.is_super();
            let st = PortState::decode(2, w, super_speed);
            assert_eq!(st.connected, w & 0x0001 != 0);
            assert_eq!(st.enabled, w & 0x0002 != 0);
            assert_eq!(st.overcurrent, w & 0x0008 != 0);
            let mask = if super_speed { 0x0200 } else { 0x0100 };
            assert_eq!(st.powered, w & mask != 0);
        }
    }
}

#[test]
fn speed_is_super() {
    assert!(!Speed::Low.is_super());
    assert!(!Speed::Full.is_super());
    assert!(!Speed::High.is_super());
    assert!(Speed::Super.is_super());
    assert!(Speed::SuperPlus.is_super());
}

#[test]
fn open_derives_super_speed() {
    assert!(usb_info(Some(Speed::Super)).open().super_speed);
    assert!(usb_info(Some(Speed::SuperPlus)).open().super_speed);
    assert!(!usb_info(Some(Speed::High)).open().super_speed);
    assert!(!usb_info(Some(Speed::Low)).open().super_speed);
    assert!(!usb_info(None).open().super_speed);
}

#[test]
fn state_request_parameters() {
    let dev = Device { super_speed: false };
    let req = dev.port(3).state_request().unwrap();
    assert_eq!(req, ControlRequest { request: 0x00, value: 0x0000, index: 3 });
}

#[test]
fn power_request_parameters() {
    let dev = Device { super_speed: false };
    let on = dev.port(2).on().unwrap();
    assert_eq!(on, ControlRequest { request: 0x03, value: 0x0008, index: 2 });
    let off = dev.port(2).off().unwrap();
    assert_eq!(off, ControlRequest { request: 0x01, value: 0x0008, index: 2 });
}

#[test]
fn toggle_inverts_observed_state() {
    let dev = Device { super_speed: true };
    let port = dev.port(4);
    assert_eq!(port.toggle(true), port.off());
    assert_eq!(port.toggle(false), port.on());
}

#[test]
fn invalid_port_rejected_without_transfer() {
    let dev = Device { super_speed: false };
    for p in [0u8, 5, 17, 255] {
        let port = dev.port(p);
        assert_eq!(port.state_request(), Err(PortError::InvalidPort));
        assert_eq!(port.on(), Err(PortError::InvalidPort));
        assert_eq!(port.off(), Err(PortError::InvalidPort));
        assert_eq!(port.toggle(true), Err(PortError::InvalidPort));
        assert_eq!(port.toggle(false), Err(PortError::InvalidPort));
        assert_eq!(port.state(&vec![0, 0, 0, 0]), Err(PortError::InvalidPort));
    }
}

#[test]
fn short_status_response_rejected() {
    let dev = Device { super_speed: false };
    let port = dev.port(1);
    assert_eq!(port.state(&vec![]), Err(PortError::ShortResponse));
    assert_eq!(port.state(&vec![0x03]), Err(PortError::ShortResponse));
    assert_eq!(port.state(&vec![0x03, 0x01, 0x00]), Err(PortError::ShortResponse));
    assert_eq!(port.state(&vec![0x03, 0x01, 0x00, 0x00, 0x00]), Err(PortError::ShortResponse));
}

#[test]
fn state_reads_word_little_endian() {
    let dev = Device { super_speed: false };
    let st = dev.port(1).state(&vec![0x03, 0x01, 0x00, 0x00]).unwrap();
    assert_eq!(st.status, 0x0103);
    assert!(st.powered);
}

#[test]
fn ports_lists_all_usable_ports() {
    let dev = Device { super_speed: true };
    let ports = dev.ports();
    assert_eq!(ports.len(), 4);
    for (i, p) in ports.iter().enumerate() {
        assert_eq!(p.port as usize, i + 1);
        assert!(p.super_speed);
    }
}

// A hub model for the round-trip check: it honors power set/clear requests
// in its status word and answers status queries with that word.
struct EchoHub {
    word: u16,
    super_speed: bool,
}

impl EchoHub {
    fn power_mask(&self) -> u16 {
        if self.super_speed { 0x0200 } else { 0x0100 }
    }

    fn control_out(&mut self, req: ControlRequest) {
        if req.request == 0x03 && req.value == 0x0008 {
            self.word |= self.power_mask();
        } else if req.request == 0x01 && req.value == 0x0008 {
            self.word &= !self.power_mask();
        }
    }

    fn control_in(&self, req: ControlRequest) -> Vec<u8> {
        assert_eq!(req.request, 0x00);
        vec![(self.word & 0xff) as u8, (self.word >> 8) as u8, 0x00, 0x00]
    }
}

#[test]
fn round_trip_on_then_state_reports_powered() {
    for super_speed in [false, true] {
        for start in [0x0000u16, 0x0103, 0x0203, 0xffff] {
            let mut hub = EchoHub { word: start, super_speed };
            let dev = Device { super_speed };
            let port = dev.port(1);
            hub.control_out(port.on().unwrap());
            let bytes = hub.control_in(port.state_request().unwrap());
            let st = port.state(&bytes).unwrap();
            assert!(st.powered);
        }
    }
}

#[test]
fn round_trip_off_then_state_reports_unpowered() {
    for super_speed in [false, true] {
        for start in [0x0000u16, 0x0103, 0x0203, 0xffff] {
            let mut hub = EchoHub { word: start, super_speed };
            let dev = Device { super_speed };
            let port = dev.port(1);
            hub.control_out(port.off().unwrap());
            let bytes = hub.control_in(port.state_request().unwrap());
            let st = port.state(&bytes).unwrap();
            assert!(!st.powered);
        }
    }
}

#[test]
fn port_error_messages() {
    assert_eq!(PortError::InvalidPort.message(), "invalid port");
    assert_eq!(PortError::ShortResponse.message(), "short status response");
}
