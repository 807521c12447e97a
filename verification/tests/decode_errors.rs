//! Malformed and truncated input: every failure is a reported value, and
//! never disturbs the fields that already decoded.

use ieee80211::{
    AKMSuiteType, AKMSuite, CapabilitiesInfo, CipherSuite, CipherSuiteType, ControlFrame,
    DataFrame, Frame, FrameLayer, ManagementFrame, ManagementFrameLayer, OverflowError,
    RSNVersion, TagName, TaggedParameters,
};


fn expect_err<T, E>(result: Result<T, E>) -> E {
    match result {
        Err(e) => e,
        Ok(_) => panic!("expected an error"),
    }
}

#[test]
fn test_truncated_frame_reports_lengths() {
    let err = expect_err(Frame::new(vec![0x80, 0x00, 0x00, 0x00, 0xff, 0xff, 0xff, 0xff, 0xff]));
    assert_eq!(err.required, 10);
    assert_eq!(err.available, 9);
}

#[test]
fn test_truncated_control_frame() {
    // a 10-byte buffer announcing RTS lacks the transmitter slot
    let mut rts_header = vec![0xb4, 0x00, 0x98, 0x00, 0x00, 0x0c, 0x41, 0x82, 0xb2, 0x55];
    let err = expect_err(ControlFrame::new(rts_header.clone()));
    assert_eq!(err.required, 16);
    assert_eq!(err.available, 10);
    // while a 10-byte ACK is complete
    rts_header[0] = 0xd4;
    assert!(ControlFrame::new(rts_header).is_ok());
}

#[test]
fn test_truncated_data_frame() {
    let short = vec![0x88, 0x01, 0, 0, 0, 0, 0, 0, 0, 0, 0, 0, 0, 0, 0, 0, 0, 0, 0, 0, 0, 0, 0];
    let err = expect_err(DataFrame::new(short));
    assert_eq!(err.required, 24);
    assert_eq!(err.available, 23);

    // WDS/Mesh mode needs the fourth address slot
    let mut wds = vec![0x88, 0x03];
    wds.resize(24, 0);
    let err = expect_err(DataFrame::new(wds.clone()));
    assert_eq!(err.required, 30);
    assert_eq!(err.available, 24);
    wds.resize(30, 0);
    assert!(DataFrame::new(wds).is_ok());
}

#[test]
fn test_truncated_management_layer() {
    // a beacon whose fixed parameters are cut short has no beacon layer,
    // but its header fields still decode
    let mut bytes = vec![0x80, 0x00, 0x02, 0x01];
    bytes.resize(30, 0);
    let management_frame = ManagementFrame::new(bytes).unwrap();
    assert!(management_frame.next_layer().is_none());
    assert_eq!(management_frame.fragment_number(), 0);
}

#[test]
fn test_tlv_overflow_reports_lengths() {
    // beacon header + fixed parameters, then one record declaring 200 bytes
    // where only 3 remain
    let mut bytes = vec![0x80, 0x00, 0x00, 0x00];
    bytes.resize(36, 0);
    bytes.extend_from_slice(&[0x00, 0xc8, 0xaa, 0xbb, 0xcc]);
    let frame = Frame::new(bytes).unwrap();
    let beacon = match frame.next_layer().unwrap() {
        FrameLayer::Management(m) => match m.next_layer().unwrap() {
            ManagementFrameLayer::Beacon(b) => b,
            _ => panic!("not a beacon"),
        },
        _ => panic!("not management"),
    };
    let err = expect_err(beacon.tagged_parameters());
    assert_eq!(err.required, 36 + 2 + 200);
    assert_eq!(err.available, 41);
    // the malformed tail does not disturb the already-decoded header
    assert_eq!(frame.receiver_address().to_array(), [0u8; 6]);
    assert_eq!(beacon.timestamp(), 0);
    assert!(beacon.ssid().is_none());
}

#[test]
fn test_tlv_lone_trailing_byte_is_overflow() {
    // a record header cut off after its tag byte cannot be read
    let mut bytes = vec![0x80, 0x00, 0x00, 0x00];
    bytes.resize(36, 0);
    bytes.extend_from_slice(&[0x00, 0x01, 0xaa, 0x07]);
    let frame = Frame::new(bytes).unwrap();
    let beacon = match frame.next_layer().unwrap() {
        FrameLayer::Management(m) => match m.next_layer().unwrap() {
            ManagementFrameLayer::Beacon(b) => b,
            _ => panic!("not a beacon"),
        },
        _ => panic!("not management"),
    };
    let err = expect_err(beacon.tagged_parameters());
    assert_eq!(err.required, 41);
    assert_eq!(err.available, 40);
}

#[test]
fn test_tagged_parameters_last_tag_wins() {
    let mut tagged_parameters = TaggedParameters::new();
    tagged_parameters.add(0, &[0x61]);
    tagged_parameters.add(5, &[0x01, 0x02]);
    tagged_parameters.add(0, &[0x62, 0x63]);
    assert_eq!(tagged_parameters.ssid().unwrap(), vec![0x62, 0x63]);
    assert_eq!(tagged_parameters.get_bytes(TagName::TrafficIndicationMap).unwrap(), vec![0x01, 0x02]);
    assert_eq!(tagged_parameters.get_all().len(), 2);
    assert!(tagged_parameters.get_bytes(TagName::RSNInformation).is_none());
}

#[test]
fn test_supported_rates_ignores_basic_marker() {
    let mut tagged_parameters = TaggedParameters::new();
    tagged_parameters.add(1, &[0x82, 0x84, 0x0b, 0x6c]);
    assert_eq!(tagged_parameters.supported_rates().unwrap(), vec![0x02, 0x04, 0x0b, 0x6c]);
}

#[test]
fn test_channel_falls_back_to_ht_information() {
    let mut tagged_parameters = TaggedParameters::new();
    tagged_parameters.add(61, &[0x24, 0x00]);
    assert_eq!(tagged_parameters.channel(), Some(0x24));
    tagged_parameters.add(3, &[0x0b]);
    assert_eq!(tagged_parameters.channel(), Some(0x0b));

    let mut empty_ds = TaggedParameters::new();
    empty_ds.add(3, &[]);
    assert_eq!(empty_ds.channel(), None);
}

#[test]
fn test_rsn_reserved_version() {
    let mut tagged_parameters = TaggedParameters::new();
    tagged_parameters.add(48, &[0x02, 0x00, 0x00, 0x0f, 0xac, 0x02]);
    assert_eq!(tagged_parameters.rsn(), Some(RSNVersion::Reserved(2)));
}

#[test]
fn test_rsn_truncated_yields_prefix() {
    // version and group cipher suite only: the lists stay empty and the
    // capabilities stay absent
    let mut tagged_parameters = TaggedParameters::new();
    tagged_parameters.add(48, &[0x01, 0x00, 0x00, 0x0f, 0xac, 0x02]);
    match tagged_parameters.rsn() {
        Some(RSNVersion::Standard(rsn)) => {
            assert_eq!(rsn.group_cipher_suite, Some(CipherSuite::Standard(CipherSuiteType::TKIP)));
            assert_eq!(rsn.pairwise_cipher_suites, vec![]);
            assert_eq!(rsn.akm_suites, vec![]);
            assert_eq!(rsn.capabilities, None);
        },
        other => panic!("unexpected rsn decode: {:?}", other),
    }

    // a pairwise count that reaches past the element keeps the suites that
    // are actually there
    let mut cut = TaggedParameters::new();
    cut.add(
        48,
        &[0x01, 0x00, 0x00, 0x0f, 0xac, 0x02, 0x03, 0x00, 0x00, 0x0f, 0xac, 0x04],
    );
    match cut.rsn() {
        Some(RSNVersion::Standard(rsn)) => {
            assert_eq!(
                rsn.pairwise_cipher_suites,
                vec![CipherSuite::Standard(CipherSuiteType::CCMP)]
            );
            assert_eq!(rsn.akm_suites, vec![]);
            assert_eq!(rsn.capabilities, None);
        },
        other => panic!("unexpected rsn decode: {:?}", other),
    }
}

#[test]
fn test_rsn_vendor_suite() {
    let mut tagged_parameters = TaggedParameters::new();
    tagged_parameters.add(
        48,
        &[
            0x01, 0x00, 0x00, 0x50, 0xf2, 0x02, 0x01, 0x00, 0x00, 0x0f, 0xac, 0x01, 0x01, 0x00,
            0x00, 0x0f, 0xac, 0x08,
        ],
    );
    match tagged_parameters.rsn() {
        Some(RSNVersion::Standard(rsn)) => {
            assert_eq!(rsn.group_cipher_suite, Some(CipherSuite::Vendor([0x00, 0x50, 0xf2], 0x02)));
            assert_eq!(
                rsn.pairwise_cipher_suites,
                vec![CipherSuite::Standard(CipherSuiteType::WEP40)]
            );
            assert_eq!(rsn.akm_suites, vec![AKMSuite::Standard(AKMSuiteType::SAE)]);
            assert_eq!(rsn.capabilities, None);
        },
        other => panic!("unexpected rsn decode: {:?}", other),
    }
}

#[test]
fn test_capabilities_bits_span_both_bytes() {
    let info = CapabilitiesInfo::from_bytes(&[0x0c, 0x02]);
    assert_eq!(info.cfp_partitipation_capabilities, 0x07);
    assert!(!info.ess_capabilities);
    assert!(!info.privacy);

    let info = CapabilitiesInfo::from_bytes(&[0x11, 0x04]);
    assert!(info.ess_capabilities);
    assert!(info.privacy);
    assert!(info.short_slot_time);
    assert_eq!(info.cfp_partitipation_capabilities, 0);
}

#[test]
fn test_overflow_error_new() {
    let err = OverflowError::new(52, 41);
    assert_eq!(err.required, 52);
    assert_eq!(err.available, 41);
}
