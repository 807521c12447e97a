//! Decoding of captured management frames.

use ieee80211::{
    AKMSuite, AKMSuiteType, AuthenticationAlgorithm, CapabilitiesInfo, CipherSuite,
    CipherSuiteType, DSStatus, DurationID, Frame, FrameLayer, FrameSubtype, FrameType,
    FrameVersion, MacAddress, ManagementFrameLayer, ManagementSubtype, RSNCapabilities,
    RSNVersion, ReasonCode, StatusCode, TagName, RSN,
};

fn mac(s: &str) -> MacAddress {
    MacAddress::from(s.parse::<eui48::MacAddress>().unwrap().to_array())
}

#[derive(Default)]
struct TestItem<'a> {
    bytes: &'a [u8],
    version: Option<FrameVersion>,
    type_: Option<FrameType>,
    subtype: Option<FrameSubtype>,
    ds_status: Option<DSStatus>,
    more_fragments: bool,
    retry: bool,
    pwr_mgt: bool,
    more_data: bool,
    protected: bool,
    order: bool,
    duration_id: Option<DurationID>,
    receiver_address: Option<MacAddress>,
    transmitter_address: Option<MacAddress>,
    destination_address: Option<MacAddress>,
    source_address: Option<MacAddress>,
    bssid_address: Option<MacAddress>,
    station_address: Option<MacAddress>,
    fragment_number: Option<u8>,
    sequence_number: Option<u16>,
    ssid: Option<Vec<u8>>,
}

fn check<T: std::fmt::Debug + std::cmp::PartialEq>(actual: Option<T>, expected: Option<T>, s: &str) {
    assert_eq!(actual.is_some(), expected.is_some(), "{}.is_some()", s);
    if expected.is_some() {
        assert_eq!(actual.unwrap(), expected.unwrap(), "{}", s);
    }
}

fn layer_ssid(layer: &ManagementFrameLayer) -> Option<Vec<u8>> {
    match layer {
        ManagementFrameLayer::Beacon(f) => f.ssid(),
        ManagementFrameLayer::ProbeRequest(f) => f.ssid(),
        ManagementFrameLayer::ProbeResponse(f) => f.ssid(),
        ManagementFrameLayer::AssociationRequest(f) => f.ssid(),
        _ => None,
    }
}

fn check_item(item: TestItem) {
    let frame = Frame::new(item.bytes.to_vec()).unwrap();

    match item.version {
        Some(version) => assert_eq!(frame.version(), version, "version"),
        None => assert_eq!(frame.version(), FrameVersion::Standard, "version"),
    }
    if let Some(type_) = item.type_ {
        assert_eq!(frame.type_(), type_, "type_");
    }
    if let Some(subtype) = item.subtype {
        assert_eq!(frame.subtype(), subtype, "subtype");
    }
    if let Some(ds_status) = item.ds_status {
        assert_eq!(frame.ds_status(), ds_status, "ds_status");
    }

    assert_eq!(frame.more_fragments(), item.more_fragments, "more_fragments");
    assert_eq!(frame.retry(), item.retry, "retry");
    assert_eq!(frame.pwr_mgt(), item.pwr_mgt, "pwr_mgt");
    assert_eq!(frame.more_data(), item.more_data, "more_data");
    assert_eq!(frame.protected(), item.protected, "protected");
    assert_eq!(frame.order(), item.order, "order");

    if let Some(duration_id) = item.duration_id {
        assert_eq!(frame.duration_or_id(), duration_id, "duration_id");
    }
    assert_eq!(frame.receiver_address(), item.receiver_address.unwrap(), "receiver_address");

    match frame.next_layer() {
        Some(FrameLayer::Management(layer)) => {
            check(layer.transmitter_address(), item.transmitter_address, "transmitter_address");
            check(layer.destination_address(), item.destination_address, "destination_address");
            check(layer.source_address(), item.source_address, "source_address");
            check(layer.bssid_address(), item.bssid_address, "bssid_address");
            check(layer.station_address(), item.station_address, "station_address");
            check(Some(layer.fragment_number()), item.fragment_number, "fragment_number");
            check(Some(layer.sequence_number()), item.sequence_number, "sequence_number");
            let ssid = layer.next_layer().and_then(|inner| layer_ssid(&inner));
            check(ssid, item.ssid, "ssid");
        },
        _ => panic!("not a management frame"),
    }
}

const BEACON_PACKET: [u8; 110] = [
    0x80, 0x00, 0x00, 0x00, 0xff, 0xff, 0xff, 0xff, 0xff, 0xff, 0x00, 0x01, 0xe3, 0x41, 0xbd,
    0x6e, 0x00, 0x01, 0xe3, 0x41, 0xbd, 0x6e, 0x10, 0xf0, 0x84, 0x21, 0x1a, 0x69, 0x02, 0x00,
    0x00, 0x00, 0x64, 0x00, 0x11, 0x04, 0x00, 0x09, 0x6d, 0x61, 0x72, 0x74, 0x69, 0x6e, 0x65,
    0x74, 0x33, 0x01, 0x08, 0x82, 0x84, 0x8b, 0x96, 0x24, 0x30, 0x48, 0x6c, 0x03, 0x01, 0x0b,
    0x05, 0x04, 0x00, 0x01, 0x00, 0x00, 0x2a, 0x01, 0x04, 0x2f, 0x01, 0x04, 0x32, 0x04, 0x0c,
    0x12, 0x18, 0x60, 0xdd, 0x06, 0x00, 0x10, 0x18, 0x01, 0x01, 0x00, 0xdd, 0x16, 0x00, 0x50,
    0xf2, 0x01, 0x01, 0x00, 0x00, 0x50, 0xf2, 0x02, 0x01, 0x00, 0x00, 0x50, 0xf2, 0x02, 0x01,
    0x00, 0x00, 0x50, 0xf2, 0x02,
];

fn expected_martinet_capabilities() -> CapabilitiesInfo {
    CapabilitiesInfo {
        ess_capabilities: true,
        ibss_status: false,
        cfp_partitipation_capabilities: 0,
        privacy: true,
        short_preamble: false,
        pbcc: false,
        channel_agility: false,
        spectrum_management: false,
        short_slot_time: true,
        automatic_power_save_delivery: false,
        radio_measurement: false,
        dsss_ofdm: false,
        delayed_block_ack: false,
        immediate_block_ack: false,
    }
}

fn rates_in_mbit(units: Vec<u8>) -> Vec<f64> {
    units.iter().map(|u| f64::from(*u) * 0.5).collect()
}

#[test]
fn test_beacon_packet() {
    // Receiver address: Broadcast (ff:ff:ff:ff:ff:ff)
    // Destination address: Broadcast (ff:ff:ff:ff:ff:ff)
    // Transmitter address: Siemens_41:bd:6e (00:01:e3:41:bd:6e)
    // Source address: Siemens_41:bd:6e (00:01:e3:41:bd:6e)
    // BSS Id: Siemens_41:bd:6e (00:01:e3:41:bd:6e)
    check_item(TestItem {
        bytes: &BEACON_PACKET,
        subtype: Some(FrameSubtype::Management(ManagementSubtype::Beacon)),
        receiver_address: Some(mac("FF:FF:FF:FF:FF:FF")),
        destination_address: Some(mac("FF:FF:FF:FF:FF:FF")),
        transmitter_address: Some(mac("00:01:e3:41:bd:6e")),
        source_address: Some(mac("00:01:e3:41:bd:6e")),
        bssid_address: Some(mac("00:01:e3:41:bd:6e")),
        fragment_number: Some(0),
        sequence_number: Some(3841),
        ssid: Some(b"martinet3".to_vec()),
        ..Default::default()
    });

    let frame = Frame::new(BEACON_PACKET.to_vec()).unwrap();
    let beacon = match frame.next_layer().unwrap() {
        FrameLayer::Management(management_frame) => match management_frame.next_layer().unwrap() {
            ManagementFrameLayer::Beacon(beacon_frame) => beacon_frame,
            _ => panic!("not a beacon"),
        },
        _ => panic!("not management"),
    };
    assert_eq!(beacon.timestamp(), 0x0000_0002_691a_2184u64, "timestamp");
    // 100 time units of 1024 microseconds: 0.102400 seconds
    assert_eq!(beacon.beacon_interval(), 100, "beacon_interval");
    assert_eq!(beacon.capabilities_info(), expected_martinet_capabilities(), "capabilities_info");
    let tagged = beacon.tagged_parameters().unwrap();
    assert_eq!(tagged.channel(), Some(11), "channel");
    assert_eq!(
        rates_in_mbit(tagged.supported_rates().unwrap()),
        vec![1.0, 2.0, 5.5, 11.0, 18.0, 24.0, 36.0, 54.0],
        "supported_rates"
    );
}

const BEACON_CIPHERS_PACKET: [u8; 140] = [
    0x80, 0x00, 0x00, 0x00, 0xff, 0xff, 0xff, 0xff, 0xff, 0xff, 0x00, 0x0c, 0x41, 0x82, 0xb2,
    0x55, 0x00, 0x0c, 0x41, 0x82, 0xb2, 0x55, 0x50, 0xf8, 0x89, 0xf1, 0xd4, 0x1b, 0x01, 0x00,
    0x00, 0x00, 0x64, 0x00, 0x11, 0x04, 0x00, 0x07, 0x43, 0x6f, 0x68, 0x65, 0x72, 0x65, 0x72,
    0x01, 0x08, 0x82, 0x84, 0x8b, 0x96, 0x24, 0x30, 0x48, 0x6c, 0x03, 0x01, 0x01, 0x05, 0x04,
    0x00, 0x01, 0x00, 0x00, 0x2a, 0x01, 0x02, 0x2f, 0x01, 0x02, 0x30, 0x18, 0x01, 0x00, 0x00,
    0x0f, 0xac, 0x02, 0x02, 0x00, 0x00, 0x0f, 0xac, 0x04, 0x00, 0x0f, 0xac, 0x02, 0x01, 0x00,
    0x00, 0x0f, 0xac, 0x02, 0x00, 0x00, 0x32, 0x04, 0x0c, 0x12, 0x18, 0x60, 0xdd, 0x06, 0x00,
    0x10, 0x18, 0x02, 0x00, 0x04, 0xdd, 0x1c, 0x00, 0x50, 0xf2, 0x01, 0x01, 0x00, 0x00, 0x50,
    0xf2, 0x02, 0x02, 0x00, 0x00, 0x50, 0xf2, 0x04, 0x00, 0x50, 0xf2, 0x02, 0x01, 0x00, 0x00,
    0x50, 0xf2, 0x02, 0x00, 0x00,
];

#[test]
fn test_beacon_ciphers_packet() {
    // Receiver address: Broadcast (ff:ff:ff:ff:ff:ff)
    // Destination address: Broadcast (ff:ff:ff:ff:ff:ff)
    // Transmitter address: Cisco-Li_82:b2:55 (00:0c:41:82:b2:55)
    // Source address: Cisco-Li_82:b2:55 (00:0c:41:82:b2:55)
    // BSS Id: Cisco-Li_82:b2:55 (00:0c:41:82:b2:55)
    check_item(TestItem {
        bytes: &BEACON_CIPHERS_PACKET,
        subtype: Some(FrameSubtype::Management(ManagementSubtype::Beacon)),
        receiver_address: Some(mac("FF:FF:FF:FF:FF:FF")),
        destination_address: Some(mac("FF:FF:FF:FF:FF:FF")),
        transmitter_address: Some(mac("00:0c:41:82:b2:55")),
        source_address: Some(mac("00:0c:41:82:b2:55")),
        bssid_address: Some(mac("00:0c:41:82:b2:55")),
        fragment_number: Some(0),
        sequence_number: Some(3973),
        ssid: Some(b"Coherer".to_vec()),
        ..Default::default()
    });

    let frame = Frame::new(BEACON_CIPHERS_PACKET.to_vec()).unwrap();
    let beacon = match frame.next_layer().unwrap() {
        FrameLayer::Management(management_frame) => match management_frame.next_layer().unwrap() {
            ManagementFrameLayer::Beacon(beacon_frame) => beacon_frame,
            _ => panic!("not a beacon"),
        },
        _ => panic!("not management"),
    };
    assert_eq!(beacon.timestamp(), 0x0000_0001_1bd4_f189u64, "timestamp");
    // 100 time units of 1024 microseconds: 0.102400 seconds
    assert_eq!(beacon.beacon_interval(), 100, "beacon_interval");
    assert_eq!(beacon.capabilities_info(), expected_martinet_capabilities(), "capabilities_info");
    let tagged = beacon.tagged_parameters().unwrap();
    assert_eq!(tagged.channel(), Some(1), "channel");
    assert_eq!(
        rates_in_mbit(tagged.supported_rates().unwrap()),
        vec![1.0, 2.0, 5.5, 11.0, 18.0, 24.0, 36.0, 54.0],
        "supported_rates"
    );

    assert_eq!(
        tagged.rsn(),
        Some(RSNVersion::Standard(RSN {
            group_cipher_suite: Some(CipherSuite::Standard(CipherSuiteType::TKIP)),
            pairwise_cipher_suites: vec![
                CipherSuite::Standard(CipherSuiteType::CCMP),
                CipherSuite::Standard(CipherSuiteType::TKIP),
            ],
            akm_suites: vec![AKMSuite::Standard(AKMSuiteType::PSK)],
            capabilities: Some(RSNCapabilities {
                pre_auth: false,
                pairwise: false,
                ptksa_replay_counter_value: 0,
                gtksa_replay_counter_value: 0,
                management_frame_protection_required: false,
                management_frame_protection_capable: false,
                joint_multi_band_rsna: false,
                peerkey: false,
            }),
        })),
        "rsn"
    );
}

const IEEE802_11_PROBE_REQUEST: [u8; 54] = [
    0x40, 0x00, 0x00, 0x00, 0xff, 0xff, 0xff, 0xff, 0xff, 0xff, 0x00, 0x16, 0xbc, 0x3d, 0xaa,
    0x57, 0xff, 0xff, 0xff, 0xff, 0xff, 0xff, 0x40, 0x00, 0x00, 0x09, 0x6d, 0x61, 0x72, 0x74,
    0x69, 0x6e, 0x65, 0x74, 0x33, 0x01, 0x08, 0x82, 0x84, 0x8b, 0x96, 0x0c, 0x12, 0x18, 0x24,
    0x03, 0x01, 0x0d, 0x32, 0x04, 0x30, 0x48, 0x60, 0x6c,
];

#[test]
fn test_ieee802_11_probe_request() {
    // Receiver address: Broadcast (ff:ff:ff:ff:ff:ff)
    // Destination address: Broadcast (ff:ff:ff:ff:ff:ff)
    // Transmitter address: NokiaDan_3d:aa:57 (00:16:bc:3d:aa:57)
    // Source address: NokiaDan_3d:aa:57 (00:16:bc:3d:aa:57)
    // BSS Id: Broadcast (ff:ff:ff:ff:ff:ff)
    check_item(TestItem {
        bytes: &IEEE802_11_PROBE_REQUEST,
        subtype: Some(FrameSubtype::Management(ManagementSubtype::ProbeRequest)),
        ds_status: Some(DSStatus::NotLeavingDSOrADHOC),
        duration_id: Some(DurationID::Duration(0)),
        receiver_address: Some(mac("ff:ff:ff:ff:ff:ff")),
        destination_address: Some(mac("ff:ff:ff:ff:ff:ff")),
        transmitter_address: Some(mac("00:16:bc:3d:aa:57")),
        source_address: Some(mac("00:16:bc:3d:aa:57")),
        bssid_address: Some(mac("ff:ff:ff:ff:ff:ff")),
        station_address: None,
        fragment_number: Some(0),
        sequence_number: Some(4),
        ssid: Some(b"martinet3".to_vec()),
        ..Default::default()
    });
}

const IEEE802_11_AUTHENTICATION_PACKET: [u8; 30] = [
    0xb0, 0x00, 0x02, 0x01, 0x00, 0x01, 0xe3, 0x41, 0xbd, 0x6e, 0x00, 0x16, 0xbc, 0x3d, 0xaa,
    0x57, 0x00, 0x01, 0xe3, 0x41, 0xbd, 0x6e, 0xd0, 0x00, 0x00, 0x00, 0x01, 0x00, 0x00, 0x00,
];

#[test]
fn test_ieee802_11_authentication_packet() {
    // Receiver address: Siemens_41:bd:6e (00:01:e3:41:bd:6e)
    // Destination address: Siemens_41:bd:6e (00:01:e3:41:bd:6e)
    // Transmitter address: NokiaDan_3d:aa:57 (00:16:bc:3d:aa:57)
    // Source address: NokiaDan_3d:aa:57 (00:16:bc:3d:aa:57)
    // BSS Id: Siemens_41:bd:6e (00:01:e3:41:bd:6e)
    check_item(TestItem {
        bytes: &IEEE802_11_AUTHENTICATION_PACKET,
        subtype: Some(FrameSubtype::Management(ManagementSubtype::Authentication)),
        ds_status: Some(DSStatus::NotLeavingDSOrADHOC),
        duration_id: Some(DurationID::Duration(258)),
        receiver_address: Some(mac("00:01:e3:41:bd:6e")),
        destination_address: Some(mac("00:01:e3:41:bd:6e")),
        transmitter_address: Some(mac("00:16:bc:3d:aa:57")),
        source_address: Some(mac("00:16:bc:3d:aa:57")),
        bssid_address: Some(mac("00:01:e3:41:bd:6e")),
        station_address: None,
        fragment_number: Some(0),
        sequence_number: Some(13),
        ssid: None,
        ..Default::default()
    });
}

#[test]
fn test_authentication_packet() {
    check_item(TestItem {
        bytes: &IEEE802_11_AUTHENTICATION_PACKET,
        subtype: Some(FrameSubtype::Management(ManagementSubtype::Authentication)),
        ds_status: Some(DSStatus::NotLeavingDSOrADHOC),
        duration_id: Some(DurationID::Duration(258)),
        receiver_address: Some(mac("00:01:e3:41:bd:6e")),
        destination_address: Some(mac("00:01:e3:41:bd:6e")),
        transmitter_address: Some(mac("00:16:bc:3d:aa:57")),
        source_address: Some(mac("00:16:bc:3d:aa:57")),
        bssid_address: Some(mac("00:01:e3:41:bd:6e")),
        fragment_number: Some(0),
        sequence_number: Some(13),
        ..Default::default()
    });

    let frame = Frame::new(IEEE802_11_AUTHENTICATION_PACKET.to_vec()).unwrap();
    match match frame.next_layer().unwrap() {
        FrameLayer::Management(ref management_frame) => management_frame.next_layer().unwrap(),
        _ => unreachable!("not management"),
    } {
        ManagementFrameLayer::Authentication(ref authentication_frame) => {
            assert_eq!(
                authentication_frame.authentication_algorithm(),
                AuthenticationAlgorithm::OpenSystem,
                "authentication_algorithm"
            );
            assert_eq!(authentication_frame.authentication_seq(), 0x0001, "authentication_seq");
            assert_eq!(authentication_frame.status_code(), StatusCode::Successful, "status_code");
        },
        _ => unreachable!("not authentication"),
    }
}

const AUTHENTICATION_RESPONSE_PACKET: [u8; 38] = [
    0xb0, 0x00, 0x3a, 0x01, 0x00, 0x16, 0xbc, 0x3d, 0xaa, 0x57, 0x00, 0x01, 0xe3, 0x41, 0xbd,
    0x6e, 0x00, 0x01, 0xe3, 0x41, 0xbd, 0x6e, 0x60, 0x1b, 0x00, 0x00, 0x02, 0x00, 0x00, 0x00,
    0xdd, 0x06, 0x00, 0x10, 0x18, 0x01, 0x01, 0x00,
];

#[test]
fn test_authentication_response_packet() {
    // Receiver address: NokiaDan_3d:aa:57 (00:16:bc:3d:aa:57)
    // Destination address: NokiaDan_3d:aa:57 (00:16:bc:3d:aa:57)
    // Transmitter address: Siemens_41:bd:6e (00:01:e3:41:bd:6e)
    // Source address: Siemens_41:bd:6e (00:01:e3:41:bd:6e)
    // BSS Id: Siemens_41:bd:6e (00:01:e3:41:bd:6e)
    check_item(TestItem {
        bytes: &AUTHENTICATION_RESPONSE_PACKET,
        subtype: Some(FrameSubtype::Management(ManagementSubtype::Authentication)),
        ds_status: Some(DSStatus::NotLeavingDSOrADHOC),
        duration_id: Some(DurationID::Duration(314)),
        receiver_address: Some(mac("00:16:bc:3d:aa:57")),
        destination_address: Some(mac("00:16:bc:3d:aa:57")),
        transmitter_address: Some(mac("00:01:e3:41:bd:6e")),
        source_address: Some(mac("00:01:e3:41:bd:6e")),
        bssid_address: Some(mac("00:01:e3:41:bd:6e")),
        fragment_number: Some(0),
        sequence_number: Some(438),
        ..Default::default()
    });

    let frame = Frame::new(AUTHENTICATION_RESPONSE_PACKET.to_vec()).unwrap();
    match match frame.next_layer().unwrap() {
        FrameLayer::Management(ref management_frame) => management_frame.next_layer().unwrap(),
        _ => unreachable!("not management"),
    } {
        ManagementFrameLayer::Authentication(ref authentication_frame) => {
            assert_eq!(
                authentication_frame.authentication_algorithm(),
                AuthenticationAlgorithm::OpenSystem,
                "authentication_algorithm"
            );
            assert_eq!(authentication_frame.authentication_seq(), 0x0002, "authentication_seq");
            assert_eq!(authentication_frame.status_code(), StatusCode::Successful, "status_code");
            assert_eq!(
                authentication_frame.tagged_parameters().unwrap().get_bytes(
                    TagName::Other(221)
                ).unwrap(),
                [0x00, 0x10, 0x18, 0x01, 0x01, 0x00],
                "tagged_paramters"
            );
        },
        _ => unreachable!("not authentication"),
    }
}

const ASSOCIATION_REQUEST_PACKET: [u8; 79] = [
    0x00, 0x00, 0x02, 0x01, 0x00, 0x01, 0xe3, 0x41, 0xbd, 0x6e, 0x00, 0x16, 0xbc, 0x3d, 0xaa,
    0x57, 0x00, 0x01, 0xe3, 0x41, 0xbd, 0x6e, 0xe0, 0x00, 0x11, 0x04, 0x0a, 0x00, 0x00, 0x09,
    0x6d, 0x61, 0x72, 0x74, 0x69, 0x6e, 0x65, 0x74, 0x33, 0x01, 0x08, 0x82, 0x84, 0x8b, 0x96,
    0x24, 0x30, 0x48, 0x6c, 0x32, 0x04, 0x0c, 0x12, 0x18, 0x60, 0xdd, 0x16, 0x00, 0x50, 0xf2,
    0x01, 0x01, 0x00, 0x00, 0x50, 0xf2, 0x02, 0x01, 0x00, 0x00, 0x50, 0xf2, 0x02, 0x01, 0x00,
    0x00, 0x50, 0xf2, 0x02,
];

#[test]
fn test_association_request_packet() {
    // Receiver address: Siemens_41:bd:6e (00:01:e3:41:bd:6e)
    // Destination address: Siemens_41:bd:6e (00:01:e3:41:bd:6e)
    // Transmitter address: NokiaDan_3d:aa:57 (00:16:bc:3d:aa:57)
    // Source address: NokiaDan_3d:aa:57 (00:16:bc:3d:aa:57)
    // BSS Id: Siemens_41:bd:6e (00:01:e3:41:bd:6e)
    check_item(TestItem {
        bytes: &ASSOCIATION_REQUEST_PACKET,
        subtype: Some(FrameSubtype::Management(ManagementSubtype::AssociationRequest)),
        ds_status: Some(DSStatus::NotLeavingDSOrADHOC),
        duration_id: Some(DurationID::Duration(258)),
        receiver_address: Some(mac("00:01:e3:41:bd:6e")),
        destination_address: Some(mac("00:01:e3:41:bd:6e")),
        transmitter_address: Some(mac("00:16:bc:3d:aa:57")),
        source_address: Some(mac("00:16:bc:3d:aa:57")),
        bssid_address: Some(mac("00:01:e3:41:bd:6e")),
        fragment_number: Some(0),
        sequence_number: Some(14),
        ssid: Some(b"martinet3".to_vec()),
        ..Default::default()
    });

    let frame = Frame::new(ASSOCIATION_REQUEST_PACKET.to_vec()).unwrap();
    match match frame.next_layer().unwrap() {
        FrameLayer::Management(ref management_frame) => management_frame.next_layer().unwrap(),
        _ => unreachable!("not management"),
    } {
        ManagementFrameLayer::AssociationRequest(ref association_request_frame) => {
            assert_eq!(association_request_frame.listen_interval(), 0x000a, "listen_interval");
            assert_eq!(association_request_frame.ssid().unwrap(), b"martinet3", "ssid");
            assert_eq!(
                association_request_frame.capabilities_info(),
                expected_martinet_capabilities(),
                "capabilities_info"
            );
            assert_eq!(
                rates_in_mbit(
                    association_request_frame.tagged_parameters().unwrap().supported_rates()
                        .unwrap()
                ),
                vec![1.0, 2.0, 5.5, 11.0, 18.0, 24.0, 36.0, 54.0],
                "supported_rates"
            );
        },
        _ => unreachable!("not association request"),
    }
}

const ASSOCIATION_RESPONSE_PACKET: [u8; 54] = [
    0x10, 0x00, 0x3a, 0x01, 0x00, 0x16, 0xbc, 0x3d, 0xaa, 0x57, 0x00, 0x01, 0xe3, 0x41, 0xbd,
    0x6e, 0x00, 0x01, 0xe3, 0x41, 0xbd, 0x6e, 0x70, 0x1b, 0x11, 0x04, 0x00, 0x00, 0x04, 0xc0,
    0x01, 0x08, 0x82, 0x84, 0x8b, 0x96, 0x24, 0x30, 0x48, 0x6c, 0x32, 0x04, 0x0c, 0x12, 0x18,
    0x60, 0xdd, 0x06, 0x00, 0x10, 0x18, 0x01, 0x01, 0x00,
];

#[test]
fn test_association_response_packet() {
    // Receiver address: NokiaDan_3d:aa:57 (00:16:bc:3d:aa:57)
    // Destination address: NokiaDan_3d:aa:57 (00:16:bc:3d:aa:57)
    // Transmitter address: Siemens_41:bd:6e (00:01:e3:41:bd:6e)
    // Source address: Siemens_41:bd:6e (00:01:e3:41:bd:6e)
    // BSS Id: Siemens_41:bd:6e (00:01:e3:41:bd:6e)
    check_item(TestItem {
        bytes: &ASSOCIATION_RESPONSE_PACKET,
        subtype: Some(FrameSubtype::Management(ManagementSubtype::AssociationResponse)),
        ds_status: Some(DSStatus::NotLeavingDSOrADHOC),
        duration_id: Some(DurationID::Duration(314)),
        receiver_address: Some(mac("00:16:bc:3d:aa:57")),
        destination_address: Some(mac("00:16:bc:3d:aa:57")),
        transmitter_address: Some(mac("00:01:e3:41:bd:6e")),
        source_address: Some(mac("00:01:e3:41:bd:6e")),
        bssid_address: Some(mac("00:01:e3:41:bd:6e")),
        fragment_number: Some(0),
        sequence_number: Some(439),
        ..Default::default()
    });

    let frame = Frame::new(ASSOCIATION_RESPONSE_PACKET.to_vec()).unwrap();
    match match frame.next_layer().unwrap() {
        FrameLayer::Management(ref management_frame) => management_frame.next_layer().unwrap(),
        _ => unreachable!("not management"),
    } {
        ManagementFrameLayer::AssociationResponse(ref association_response_frame) => {
            assert_eq!(
                association_response_frame.status_code(),
                StatusCode::Successful,
                "status_code"
            );
            assert_eq!(association_response_frame.association_id(), 0x0004, "association_id");
            assert_eq!(
                association_response_frame.capabilities_info(),
                expected_martinet_capabilities(),
                "capabilities_info"
            );
        },
        _ => unreachable!("not association response"),
    }
}

const DEAUTHENTICATION_PACKET: [u8; 26] = [
    0xc0, 0x00, 0x02, 0x01, 0x00, 0x01, 0xe3, 0x41, 0xbd, 0x6e, 0x00, 0x16, 0xbc, 0x3d, 0xaa,
    0x57, 0x00, 0x01, 0xe3, 0x41, 0xbd, 0x6e, 0x80, 0x04, 0x03, 0x00,
];

#[test]
fn test_deauthentication_packet() {
    // Receiver address: Siemens_41:bd:6e (00:01:e3:41:bd:6e)
    // Destination address: Siemens_41:bd:6e (00:01:e3:41:bd:6e)
    // Transmitter address: NokiaDan_3d:aa:57 (00:16:bc:3d:aa:57)
    // Source address: NokiaDan_3d:aa:57 (00:16:bc:3d:aa:57)
    // BSS Id: Siemens_41:bd:6e (00:01:e3:41:bd:6e)
    check_item(TestItem {
        bytes: &DEAUTHENTICATION_PACKET,
        subtype: Some(FrameSubtype::Management(ManagementSubtype::Deauthentication)),
        ds_status: Some(DSStatus::NotLeavingDSOrADHOC),
        duration_id: Some(DurationID::Duration(258)),
        receiver_address: Some(mac("00:01:e3:41:bd:6e")),
        destination_address: Some(mac("00:01:e3:41:bd:6e")),
        transmitter_address: Some(mac("00:16:bc:3d:aa:57")),
        source_address: Some(mac("00:16:bc:3d:aa:57")),
        bssid_address: Some(mac("00:01:e3:41:bd:6e")),
        fragment_number: Some(0),
        sequence_number: Some(72),
        ..Default::default()
    });

    let frame = Frame::new(DEAUTHENTICATION_PACKET.to_vec()).unwrap();
    match match frame.next_layer().unwrap() {
        FrameLayer::Management(ref management_frame) => management_frame.next_layer().unwrap(),
        _ => unreachable!("not management"),
    } {
        ManagementFrameLayer::Deauthentication(ref deauthentication_frame) => {
            // Reason code: Deauthenticated because sending STA is leaving (or has left) IBSS or ESS (0x0003)
            assert_eq!(
                deauthentication_frame.reason_code(),
                ReasonCode::STALeavingIBSSOrESS,
                "reason_code"
            );
        },
        _ => unreachable!("not deauthentication"),
    }
}

const DISASSOCIATE_PACKET: [u8; 30] = [
    0xa0, 0x00, 0x3a, 0x01, 0x00, 0x0c, 0x41, 0x82, 0xb2, 0x55, 0x00, 0x0d, 0x93, 0x82, 0x36,
    0x3a, 0x00, 0x0c, 0x41, 0x82, 0xb2, 0x55, 0x50, 0x0b, 0x08, 0x00, 0xfe, 0xaa, 0x65, 0xac,
];

#[test]
fn test_disassociate_packet() {
    // Receiver address: Cisco-Li_82:b2:55 (00:0c:41:82:b2:55)
    // Destination address: Cisco-Li_82:b2:55 (00:0c:41:82:b2:55)
    // Transmitter address: Apple_82:36:3a (00:0d:93:82:36:3a)
    // Source address: Apple_82:36:3a (00:0d:93:82:36:3a)
    // BSS Id: Cisco-Li_82:b2:55 (00:0c:41:82:b2:55)
    check_item(TestItem {
        bytes: &DISASSOCIATE_PACKET,
        subtype: Some(FrameSubtype::Management(ManagementSubtype::Disassociate)),
        ds_status: Some(DSStatus::NotLeavingDSOrADHOC),
        duration_id: Some(DurationID::Duration(314)),
        receiver_address: Some(mac("00:0c:41:82:b2:55")),
        destination_address: Some(mac("00:0c:41:82:b2:55")),
        transmitter_address: Some(mac("00:0d:93:82:36:3a")),
        source_address: Some(mac("00:0d:93:82:36:3a")),
        bssid_address: Some(mac("00:0c:41:82:b2:55")),
        fragment_number: Some(0),
        sequence_number: Some(181),
        ..Default::default()
    });

    let frame = Frame::new(DISASSOCIATE_PACKET.to_vec()).unwrap();
    match match frame.next_layer().unwrap() {
        FrameLayer::Management(ref management_frame) => management_frame.next_layer().unwrap(),
        _ => unreachable!("not management"),
    } {
        ManagementFrameLayer::Disassociate(ref disassociate_frame) => {
            // Reason code: Disassociated because sending STA is leaving (or has left) BSS (0x0008)
            assert_eq!(disassociate_frame.reason_code(), ReasonCode::STALeavingBSS, "reason_code");
        },
        _ => unreachable!("not disassociate"),
    }
}

#[test]
fn test_probe_response_layer() {
    // a probe response shares the beacon's fixed-parameter layout
    let mut bytes = BEACON_PACKET.to_vec();
    bytes[0] = 0x50;
    let frame = Frame::new(bytes).unwrap();
    let probe_response = match frame.next_layer().unwrap() {
        FrameLayer::Management(m) => match m.next_layer().unwrap() {
            ManagementFrameLayer::ProbeResponse(f) => f,
            _ => panic!("not a probe response"),
        },
        _ => panic!("not management"),
    };
    assert_eq!(probe_response.timestamp(), 0x0000_0002_691a_2184u64);
    assert_eq!(probe_response.beacon_interval(), 100);
    assert_eq!(probe_response.capabilities_info(), expected_martinet_capabilities());
    assert_eq!(probe_response.ssid().unwrap(), b"martinet3");
    assert_eq!(probe_response.tagged_parameters().unwrap().channel(), Some(11));
}
