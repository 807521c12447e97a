//! Decoding of captured data frames, and of a frame of all-reserved codes.

use ieee80211::{
    DSStatus, DataSubtype, DurationID, Frame, FrameLayer, FrameSubtype, FrameType, FrameVersion,
    MacAddress,
};

fn mac(s: &str) -> MacAddress {
    MacAddress::from(s.parse::<eui48::MacAddress>().unwrap().to_array())
}

fn check<T: std::fmt::Debug + std::cmp::PartialEq>(actual: Option<T>, expected: Option<T>, s: &str) {
    assert_eq!(actual.is_some(), expected.is_some(), "{}.is_some()", s);
    if expected.is_some() {
        assert_eq!(actual.unwrap(), expected.unwrap(), "{}", s);
    }
}

const IEEE802_11_NULL_DATA_PACKET: [u8; 24] = [
    0x48, 0x11, 0x02, 0x01, 0x00, 0x01, 0xe3, 0x41, 0xbd, 0x6e, 0x00, 0x16, 0xbc, 0x3d, 0xaa,
    0x57, 0x00, 0x01, 0xe3, 0x41, 0xbd, 0x6e, 0xf0, 0x03,
];

#[test]
fn test_ieee802_11_null_data_packet() {
    // Receiver address: Siemens_41:bd:6e (00:01:e3:41:bd:6e)
    // Transmitter address: NokiaDan_3d:aa:57 (00:16:bc:3d:aa:57)
    // Destination address: Siemens_41:bd:6e (00:01:e3:41:bd:6e)
    // Source address: NokiaDan_3d:aa:57 (00:16:bc:3d:aa:57)
    // BSS Id: Siemens_41:bd:6e (00:01:e3:41:bd:6e)
    // STA address: NokiaDan_3d:aa:57 (00:16:bc:3d:aa:57)
    let frame = Frame::new(IEEE802_11_NULL_DATA_PACKET.to_vec()).unwrap();
    assert_eq!(frame.version(), FrameVersion::Standard, "version");
    assert_eq!(frame.subtype(), FrameSubtype::Data(DataSubtype::Null), "subtype");
    assert_eq!(frame.ds_status(), DSStatus::FromSTAToDS, "ds_status");
    assert_eq!(frame.more_fragments(), false, "more_fragments");
    assert_eq!(frame.retry(), false, "retry");
    assert_eq!(frame.pwr_mgt(), true, "pwr_mgt");
    assert_eq!(frame.more_data(), false, "more_data");
    assert_eq!(frame.protected(), false, "protected");
    assert_eq!(frame.order(), false, "order");
    assert_eq!(frame.duration_or_id(), DurationID::Duration(258), "duration_id");
    assert_eq!(frame.receiver_address(), mac("00:01:e3:41:bd:6e"), "receiver_address");

    match frame.next_layer() {
        Some(FrameLayer::Data(layer)) => {
            check(layer.transmitter_address(), Some(mac("00:16:bc:3d:aa:57")), "transmitter_address");
            check(layer.destination_address(), Some(mac("00:01:e3:41:bd:6e")), "destination_address");
            check(layer.source_address(), Some(mac("00:16:bc:3d:aa:57")), "source_address");
            check(layer.bssid_address(), Some(mac("00:01:e3:41:bd:6e")), "bssid_address");
            check(layer.station_address(), Some(mac("00:16:bc:3d:aa:57")), "station_address");
            assert_eq!(layer.fragment_number(), 0, "fragment_number");
            assert_eq!(layer.sequence_number(), 63, "sequence_number");
        },
        _ => panic!("not a data frame"),
    }
}

const QOS_DATA_PACKET: [u8; 97] = [
    0x88, 0x01, 0x2c, 0x00, 0x00, 0x14, 0xa5, 0xcd, 0x74, 0x7b, 0x00, 0x14, 0xa5, 0xcb, 0x6e,
    0x1a, 0x00, 0x01, 0x02, 0x27, 0xf9, 0xb2, 0xa0, 0xed, 0x00, 0x00, 0xaa, 0xaa, 0x03, 0x00,
    0x00, 0x00, 0x08, 0x00, 0x45, 0x00, 0x00, 0x3b, 0x8d, 0x06, 0x00, 0x00, 0x80, 0x11, 0x29,
    0xd6, 0xc0, 0xa8, 0x01, 0x84, 0xc0, 0xa8, 0x01, 0x01, 0x04, 0x07, 0x00, 0x35, 0x00, 0x27,
    0xab, 0x15, 0x96, 0xc1, 0x01, 0x00, 0x00, 0x01, 0x00, 0x00, 0x00, 0x00, 0x00, 0x00, 0x03,
    0x77, 0x77, 0x77, 0x06, 0x70, 0x6f, 0x6c, 0x69, 0x74, 0x6f, 0x02, 0x69, 0x74, 0x00, 0x00,
    0x01, 0x00, 0x01, 0x78, 0x80, 0x59, 0x37,
];

#[test]
fn test_qos_data_packet() {
    // Receiver address: GemtekTe_cd:74:7b (00:14:a5:cd:74:7b)
    // Transmitter address: GemtekTe_cb:6e:1a (00:14:a5:cb:6e:1a)
    // Destination address: 3Com_27:f9:b2 (00:01:02:27:f9:b2)
    // Source address: GemtekTe_cb:6e:1a (00:14:a5:cb:6e:1a)
    // BSS Id: GemtekTe_cd:74:7b (00:14:a5:cd:74:7b)
    // STA address: GemtekTe_cb:6e:1a (00:14:a5:cb:6e:1a)
    let frame = Frame::new(QOS_DATA_PACKET.to_vec()).unwrap();
    assert_eq!(frame.subtype(), FrameSubtype::Data(DataSubtype::QoSData), "subtype");
    assert_eq!(frame.ds_status(), DSStatus::FromSTAToDS, "ds_status");
    assert_eq!(frame.duration_or_id(), DurationID::Duration(44), "duration_id");
    assert_eq!(frame.receiver_address(), mac("00:14:a5:cd:74:7b"), "receiver_address");

    match frame.next_layer() {
        Some(FrameLayer::Data(layer)) => {
            check(layer.transmitter_address(), Some(mac("00:14:a5:cb:6e:1a")), "transmitter_address");
            check(layer.destination_address(), Some(mac("00:01:02:27:f9:b2")), "destination_address");
            check(layer.source_address(), Some(mac("00:14:a5:cb:6e:1a")), "source_address");
            check(layer.bssid_address(), Some(mac("00:14:a5:cd:74:7b")), "bssid_address");
            check(layer.station_address(), Some(mac("00:14:a5:cb:6e:1a")), "station_address");
            assert_eq!(layer.fragment_number(), 0, "fragment_number");
            assert_eq!(layer.sequence_number(), 3802, "sequence_number");
        },
        _ => panic!("not a data frame"),
    }
}

const VERY_BAD_PACKET: [u8; 10] = [0xff, 0xff, 0xff, 0xff, 0xff, 0xff, 0, 0, 0, 0];

#[test]
fn test_very_bad_packet() {
    let frame = Frame::new(VERY_BAD_PACKET.to_vec()).unwrap();
    assert_eq!(frame.version(), FrameVersion::Reserved(3), "version");
    assert_eq!(frame.type_(), FrameType::Reserved(3), "type_");
    assert_eq!(frame.subtype(), FrameSubtype::Reserved(3, 15), "subtype");
    assert_eq!(frame.ds_status(), DSStatus::WDSOrMesh, "ds_status");
    assert_eq!(frame.more_fragments(), true, "more_fragments");
    assert_eq!(frame.retry(), true, "retry");
    assert_eq!(frame.pwr_mgt(), true, "pwr_mgt");
    assert_eq!(frame.more_data(), true, "more_data");
    assert_eq!(frame.protected(), true, "protected");
    assert_eq!(frame.order(), true, "order");
    assert_eq!(frame.duration_or_id(), DurationID::Reserved(16383), "duration_id");
    assert_eq!(frame.receiver_address(), mac("ff:ff:00:00:00:00"), "receiver_address");
    // a frame of an unknown category has no further layer
    assert!(frame.next_layer().is_none(), "next_layer");
}

#[test]
fn test_data_addressing_not_leaving_ds() {
    // NotLeavingDSOrADHOC: destination is the receiver, source the
    // transmitter, BSSID the third slot, no station
    let mut bytes = vec![0x08, 0x00, 0x00, 0x00];
    bytes.extend_from_slice(&[0x11, 0x11, 0x11, 0x11, 0x11, 0x11]);
    bytes.extend_from_slice(&[0x22, 0x22, 0x22, 0x22, 0x22, 0x22]);
    bytes.extend_from_slice(&[0x33, 0x33, 0x33, 0x33, 0x33, 0x33]);
    bytes.extend_from_slice(&[0x00, 0x00]);
    let frame = Frame::new(bytes).unwrap();
    assert_eq!(frame.ds_status(), DSStatus::NotLeavingDSOrADHOC);
    match frame.next_layer() {
        Some(FrameLayer::Data(layer)) => {
            assert_eq!(layer.destination_address().unwrap(), MacAddress::from([0x11; 6]));
            assert_eq!(layer.source_address().unwrap(), MacAddress::from([0x22; 6]));
            assert_eq!(layer.bssid_address().unwrap(), MacAddress::from([0x33; 6]));
            assert!(layer.station_address().is_none());
        },
        _ => panic!("not a data frame"),
    }
}

#[test]
fn test_data_addressing_from_ds_to_sta() {
    // FromDSToSTA: destination and station are the receiver, source the
    // third slot, BSSID the transmitter
    let mut bytes = vec![0x08, 0x02, 0x00, 0x00];
    bytes.extend_from_slice(&[0x11, 0x11, 0x11, 0x11, 0x11, 0x11]);
    bytes.extend_from_slice(&[0x22, 0x22, 0x22, 0x22, 0x22, 0x22]);
    bytes.extend_from_slice(&[0x33, 0x33, 0x33, 0x33, 0x33, 0x33]);
    bytes.extend_from_slice(&[0x00, 0x00]);
    let frame = Frame::new(bytes).unwrap();
    assert_eq!(frame.ds_status(), DSStatus::FromDSToSTA);
    match frame.next_layer() {
        Some(FrameLayer::Data(layer)) => {
            assert_eq!(layer.destination_address().unwrap(), MacAddress::from([0x11; 6]));
            assert_eq!(layer.source_address().unwrap(), MacAddress::from([0x33; 6]));
            assert_eq!(layer.bssid_address().unwrap(), MacAddress::from([0x22; 6]));
            assert_eq!(layer.station_address().unwrap(), MacAddress::from([0x11; 6]));
        },
        _ => panic!("not a data frame"),
    }
}

#[test]
fn test_data_addressing_wds() {
    // WDSOrMesh: destination is the third slot, source the fourth, and
    // neither BSSID nor station is named
    let mut bytes = vec![0x08, 0x03, 0x00, 0x00];
    bytes.extend_from_slice(&[0x11, 0x11, 0x11, 0x11, 0x11, 0x11]);
    bytes.extend_from_slice(&[0x22, 0x22, 0x22, 0x22, 0x22, 0x22]);
    bytes.extend_from_slice(&[0x33, 0x33, 0x33, 0x33, 0x33, 0x33]);
    bytes.extend_from_slice(&[0x00, 0x00]);
    bytes.extend_from_slice(&[0x44, 0x44, 0x44, 0x44, 0x44, 0x44]);
    let frame = Frame::new(bytes).unwrap();
    assert_eq!(frame.ds_status(), DSStatus::WDSOrMesh);
    match frame.next_layer() {
        Some(FrameLayer::Data(layer)) => {
            assert_eq!(layer.transmitter_address().unwrap(), MacAddress::from([0x22; 6]));
            assert_eq!(layer.destination_address().unwrap(), MacAddress::from([0x33; 6]));
            assert_eq!(layer.source_address().unwrap(), MacAddress::from([0x44; 6]));
            assert!(layer.bssid_address().is_none());
            assert!(layer.station_address().is_none());
        },
        _ => panic!("not a data frame"),
    }
}

#[test]
fn test_protected_qos_data_payload_offset() {
    // a protected QoS Data frame's payload starts after the security and
    // QoS Control fields
    let mut bytes = vec![0x88, 0x41, 0x00, 0x00];
    bytes.resize(34, 0);
    bytes.extend_from_slice(b"payload");
    let frame = Frame::new(bytes).unwrap();
    match frame.next_layer() {
        Some(FrameLayer::Data(layer)) => {
            assert_eq!(&layer.next_layer().unwrap()[..], b"payload");
        },
        _ => panic!("not a data frame"),
    }
    // a CF-Ack frame carries no payload at all
    let mut cf_ack = vec![0x58, 0x00, 0x00, 0x00];
    cf_ack.resize(30, 0);
    let frame = Frame::new(cf_ack).unwrap();
    match frame.next_layer() {
        Some(FrameLayer::Data(layer)) => assert!(layer.next_layer().is_none()),
        _ => panic!("not a data frame"),
    }
}
