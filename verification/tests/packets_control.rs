//! Decoding of captured control frames.

use ieee80211::{
    ControlSubtype, DSStatus, DurationID, Frame, FrameLayer, FrameSubtype, FrameVersion,
    MacAddress,
};

fn mac(s: &str) -> MacAddress {
    MacAddress::from(s.parse::<eui48::MacAddress>().unwrap().to_array())
}

#[derive(Default)]
struct TestItem<'a> {
    bytes: &'a [u8],
    subtype: Option<FrameSubtype>,
    ds_status: Option<DSStatus>,
    more_fragments: bool,
    retry: bool,
    pwr_mgt: bool,
    more_data: bool,
    protected: bool,
    order: bool,
    duration_id: Option<DurationID>,
    receiver_address: Option<MacAddress>,
    transmitter_address: Option<MacAddress>,
    bssid_address: Option<MacAddress>,
}

fn check<T: std::fmt::Debug + std::cmp::PartialEq>(actual: Option<T>, expected: Option<T>, s: &str) {
    assert_eq!(actual.is_some(), expected.is_some(), "{}.is_some()", s);
    if expected.is_some() {
        assert_eq!(actual.unwrap(), expected.unwrap(), "{}", s);
    }
}

fn check_item(item: TestItem) {
    let frame = Frame::new(item.bytes.to_vec()).unwrap();

    assert_eq!(frame.version(), FrameVersion::Standard, "version");
    if let Some(subtype) = item.subtype {
        assert_eq!(frame.subtype(), subtype, "subtype");
    }
    if let Some(ds_status) = item.ds_status {
        assert_eq!(frame.ds_status(), ds_status, "ds_status");
    }

    assert_eq!(frame.more_fragments(), item.more_fragments, "more_fragments");
    assert_eq!(frame.retry(), item.retry, "retry");
    assert_eq!(frame.pwr_mgt(), item.pwr_mgt, "pwr_mgt");
    assert_eq!(frame.more_data(), item.more_data, "more_data");
    assert_eq!(frame.protected(), item.protected, "protected");
    assert_eq!(frame.order(), item.order, "order");

    if let Some(duration_id) = item.duration_id {
        assert_eq!(frame.duration_or_id(), duration_id, "duration_id");
    }
    assert_eq!(frame.receiver_address(), item.receiver_address.unwrap(), "receiver_address");

    match frame.next_layer() {
        Some(FrameLayer::Control(layer)) => {
            check(layer.transmitter_address(), item.transmitter_address, "transmitter_address");
            assert!(layer.destination_address().is_none(), "destination_address");
            assert!(layer.source_address().is_none(), "source_address");
            check(layer.bssid_address(), item.bssid_address, "bssid_address");
            assert!(layer.station_address().is_none(), "station_address");
        },
        _ => panic!("not a control frame"),
    }
}

const IEEE802_11_ACK_PACKET: [u8; 10] = [
    0xd4, 0x00, 0x00, 0x00, 0x00, 0x15, 0x00, 0x34, 0x18, 0x52,
];

#[test]
fn test_ieee802_11_ack_packet() {
    // Receiver address: IntelCor_34:18:52 (00:15:00:34:18:52)
    check_item(TestItem {
        bytes: &IEEE802_11_ACK_PACKET,
        subtype: Some(FrameSubtype::Control(ControlSubtype::Ack)),
        ds_status: Some(DSStatus::NotLeavingDSOrADHOC),
        duration_id: Some(DurationID::Duration(0)),
        receiver_address: Some(mac("00:15:00:34:18:52")),
        ..Default::default()
    });
}

const IEEE802_11_CTS_PACKET: [u8; 14] = [
    0xc4, 0x00, 0x68, 0x00, 0x00, 0x0c, 0x41, 0x82, 0xb2, 0x55, 0x55, 0x09, 0xcb, 0x58,
];

#[test]
fn test_ieee802_11_cts_packet() {
    // Receiver address: Cisco-Li_82:b2:55 (00:0c:41:82:b2:55)
    check_item(TestItem {
        bytes: &IEEE802_11_CTS_PACKET,
        subtype: Some(FrameSubtype::Control(ControlSubtype::CTS)),
        ds_status: Some(DSStatus::NotLeavingDSOrADHOC),
        duration_id: Some(DurationID::Duration(104)),
        receiver_address: Some(mac("00:0c:41:82:b2:55")),
        ..Default::default()
    });
}

#[test]
fn test_cts_packet() {
    check_item(TestItem {
        bytes: &IEEE802_11_CTS_PACKET,
        subtype: Some(FrameSubtype::Control(ControlSubtype::CTS)),
        duration_id: Some(DurationID::Duration(104)),
        receiver_address: Some(mac("00:0c:41:82:b2:55")),
        ..Default::default()
    });
}

const IEEE802_11_RTS_PACKET: [u8; 16] = [
    0xb4, 0x00, 0x98, 0x00, 0x00, 0x0c, 0x41, 0x82, 0xb2, 0x55, 0x00, 0x15, 0x00, 0x34, 0x18,
    0x52,
];

#[test]
fn test_ieee802_11_rts_packet() {
    // Receiver address: Cisco-Li_82:b2:55 (00:0c:41:82:b2:55)
    // Transmitter address: IntelCor_34:18:52 (00:15:00:34:18:52)
    check_item(TestItem {
        bytes: &IEEE802_11_RTS_PACKET,
        subtype: Some(FrameSubtype::Control(ControlSubtype::RTS)),
        ds_status: Some(DSStatus::NotLeavingDSOrADHOC),
        duration_id: Some(DurationID::Duration(152)),
        receiver_address: Some(mac("00:0c:41:82:b2:55")),
        transmitter_address: Some(mac("00:15:00:34:18:52")),
        ..Default::default()
    });
}

#[test]
fn test_rts_packet() {
    check_item(TestItem {
        bytes: &IEEE802_11_RTS_PACKET,
        subtype: Some(FrameSubtype::Control(ControlSubtype::RTS)),
        duration_id: Some(DurationID::Duration(152)),
        receiver_address: Some(mac("00:0c:41:82:b2:55")),
        transmitter_address: Some(mac("00:15:00:34:18:52")),
        ..Default::default()
    });
}

const IEEE802_11_CF_END_PACKET: [u8; 16] = [
    0xe4, 0x00, 0x00, 0x00, 0xff, 0xff, 0xff, 0xff, 0xff, 0xff, 0x00, 0x15, 0x00, 0x34, 0x18,
    0x52,
];

#[test]
fn test_ieee802_11_cf_end_packet() {
    // Receiver address: Broadcast (ff:ff:ff:ff:ff:ff)
    // Transmitter address: IntelCor_34:18:52 (00:15:00:34:18:52)
    check_item(TestItem {
        bytes: &IEEE802_11_CF_END_PACKET,
        subtype: Some(FrameSubtype::Control(ControlSubtype::CFEnd)),
        ds_status: Some(DSStatus::NotLeavingDSOrADHOC),
        duration_id: Some(DurationID::Duration(0)),
        receiver_address: Some(mac("ff:ff:ff:ff:ff:ff")),
        bssid_address: Some(mac("00:15:00:34:18:52")),
        ..Default::default()
    });
}

#[test]
fn test_cf_end_packet() {
    check_item(TestItem {
        bytes: &IEEE802_11_CF_END_PACKET,
        subtype: Some(FrameSubtype::Control(ControlSubtype::CFEnd)),
        receiver_address: Some(mac("ff:ff:ff:ff:ff:ff")),
        bssid_address: Some(mac("00:15:00:34:18:52")),
        ..Default::default()
    });
}

const IEEE802_11_BLOCK_ACK_REQUEST_PACKET: [u8; 20] = [
    0x84, 0x00, 0x54, 0x00, 0x00, 0x0c, 0x41, 0x82, 0xb2, 0x55, 0x00, 0x15, 0x00, 0x34, 0x18,
    0x52, 0x04, 0x00, 0xb0, 0xeb,
];

#[test]
fn test_ieee802_11_block_ack_request_packet() {
    // Receiver address: Cisco-Li_82:b2:55 (00:0c:41:82:b2:55)
    // Transmitter address: IntelCor_34:18:52 (00:15:00:34:18:52)
    check_item(TestItem {
        bytes: &IEEE802_11_BLOCK_ACK_REQUEST_PACKET,
        subtype: Some(FrameSubtype::Control(ControlSubtype::BlockAckRequest)),
        ds_status: Some(DSStatus::NotLeavingDSOrADHOC),
        duration_id: Some(DurationID::Duration(84)),
        receiver_address: Some(mac("00:0c:41:82:b2:55")),
        transmitter_address: Some(mac("00:15:00:34:18:52")),
        ..Default::default()
    });
}

#[test]
fn test_block_ack_request_packet() {
    check_item(TestItem {
        bytes: &IEEE802_11_BLOCK_ACK_REQUEST_PACKET,
        subtype: Some(FrameSubtype::Control(ControlSubtype::BlockAckRequest)),
        ds_status: Some(DSStatus::NotLeavingDSOrADHOC),
        duration_id: Some(DurationID::Duration(84)),
        receiver_address: Some(mac("00:0c:41:82:b2:55")),
        transmitter_address: Some(mac("00:15:00:34:18:52")),
        ..Default::default()
    });
}

const BLOCK_ACK_PACKET: [u8; 28] = [
    0x94, 0x00, 0x00, 0x00, 0x00, 0x0c, 0x41, 0x82, 0xb2, 0x55, 0x00, 0x15, 0x00, 0x34, 0x18,
    0x52, 0x04, 0x00, 0xf0, 0xb3, 0xff, 0xff, 0xff, 0xff, 0xff, 0xff, 0xff, 0xff,
];

#[test]
fn test_block_ack_packet() {
    // Receiver address: Cisco-Li_82:b2:55 (00:0c:41:82:b2:55)
    // Transmitter address: IntelCor_34:18:52 (00:15:00:34:18:52)
    check_item(TestItem {
        bytes: &BLOCK_ACK_PACKET,
        subtype: Some(FrameSubtype::Control(ControlSubtype::BlockAck)),
        receiver_address: Some(mac("00:0c:41:82:b2:55")),
        transmitter_address: Some(mac("00:15:00:34:18:52")),
        ..Default::default()
    });
}

const IEEE802_11_POWER_SAVE_POLL_PACKET: [u8; 16] = [
    0xa4, 0x10, 0x01, 0xc0, 0x00, 0x01, 0xe3, 0x41, 0xbd, 0x6e, 0x00, 0x16, 0xbc, 0x3d, 0xaa,
    0x57,
];

#[test]
fn test_ieee802_11_power_save_poll_packet() {
    // Receiver address: Siemens_41:bd:6e (00:01:e3:41:bd:6e)
    // BSS Id: Siemens_41:bd:6e (00:01:e3:41:bd:6e)
    // Transmitter address: NokiaDan_3d:aa:57 (00:16:bc:3d:aa:57)
    check_item(TestItem {
        bytes: &IEEE802_11_POWER_SAVE_POLL_PACKET,
        subtype: Some(FrameSubtype::Control(ControlSubtype::PSPoll)),
        ds_status: Some(DSStatus::NotLeavingDSOrADHOC),
        pwr_mgt: true,
        duration_id: Some(DurationID::AssociationID(1)),
        receiver_address: Some(mac("00:01:e3:41:bd:6e")),
        transmitter_address: Some(mac("00:16:bc:3d:aa:57")),
        bssid_address: Some(mac("00:01:e3:41:bd:6e")),
        ..Default::default()
    });
}

#[test]
fn test_power_save_poll_packet() {
    check_item(TestItem {
        bytes: &IEEE802_11_POWER_SAVE_POLL_PACKET,
        subtype: Some(FrameSubtype::Control(ControlSubtype::PSPoll)),
        ds_status: Some(DSStatus::NotLeavingDSOrADHOC),
        pwr_mgt: true,
        duration_id: Some(DurationID::AssociationID(1)),
        receiver_address: Some(mac("00:01:e3:41:bd:6e")),
        transmitter_address: Some(mac("00:16:bc:3d:aa:57")),
        bssid_address: Some(mac("00:01:e3:41:bd:6e")),
        ..Default::default()
    });
}
