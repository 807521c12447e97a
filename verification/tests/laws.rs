//! Concrete instances of the library's round-trip guarantees.

use ieee80211::{
    ControlSubtype, DSStatus, DataSubtype, DurationID, FrameBuilder, FrameSubtype, FrameType,
    FrameVersion, ManagementFrameBuilder, ManagementSubtype, ReasonCode, StatusCode,
};

#[test]
fn test_ds_status_bools_identity() {
    // every flag pair decodes to the status that encodes the same pair
    for &(from_ds, to_ds) in &[(false, false), (false, true), (true, false), (true, true)] {
        let status = DSStatus::from_bools(from_ds, to_ds);
        assert_eq!(status.to_bools(), (from_ds, to_ds));
    }
    // and every status encodes to the pair that decodes back to it
    for &status in &[
        DSStatus::NotLeavingDSOrADHOC,
        DSStatus::FromSTAToDS,
        DSStatus::FromDSToSTA,
        DSStatus::WDSOrMesh,
    ] {
        let (from_ds, to_ds) = status.to_bools();
        assert_eq!(DSStatus::from_bools(from_ds, to_ds), status);
    }
}

#[test]
fn test_duration_id_round_trip_boundaries() {
    for &duration_id in &[
        DurationID::Duration(0),
        DurationID::Duration(258),
        DurationID::Duration(0x7fff),
        DurationID::AssociationID(1),
        DurationID::AssociationID(2007),
        DurationID::Reserved(0),
        DurationID::Reserved(2008),
        DurationID::Reserved(16383),
    ] {
        let mut builder = FrameBuilder::new();
        builder.duration_or_id(duration_id);
        assert_eq!(builder.build().duration_or_id(), duration_id, "{:?}", duration_id);
    }
}

#[test]
fn test_subtype_round_trip_all_categories() {
    for &subtype in &[
        FrameSubtype::Management(ManagementSubtype::Beacon),
        FrameSubtype::Management(ManagementSubtype::Reserved(6)),
        FrameSubtype::Control(ControlSubtype::Ack),
        FrameSubtype::Control(ControlSubtype::Reserved(0)),
        FrameSubtype::Data(DataSubtype::QoSNull),
        FrameSubtype::Data(DataSubtype::Reserved(13)),
    ] {
        let type_ = match subtype {
            FrameSubtype::Management(_) => FrameType::Management,
            FrameSubtype::Control(_) => FrameType::Control,
            FrameSubtype::Data(_) => FrameType::Data,
            FrameSubtype::Reserved(t, _) => FrameType::Reserved(t),
        };
        let mut builder = FrameBuilder::new();
        builder.type_(type_);
        builder.subtype(subtype);
        let frame = builder.build();
        assert_eq!(frame.type_(), type_, "{:?}", subtype);
        assert_eq!(frame.subtype(), subtype, "{:?}", subtype);
    }
}

#[test]
fn test_version_round_trip() {
    for &version in &[FrameVersion::Standard, FrameVersion::Reserved(2)] {
        let mut builder = FrameBuilder::new();
        builder.version(version);
        assert_eq!(builder.build().version(), version, "{:?}", version);
    }
}

#[test]
fn test_flags_independent() {
    // setting one flag moves no other flag, in any order
    let mut builder = FrameBuilder::new();
    builder.retry(true);
    builder.more_data(true);
    builder.retry(false);
    let frame = builder.build();
    assert_eq!(frame.retry(), false);
    assert_eq!(frame.more_data(), true);
    assert_eq!(frame.more_fragments(), false);
    assert_eq!(frame.pwr_mgt(), false);
    assert_eq!(frame.protected(), false);
    assert_eq!(frame.order(), false);
}

#[test]
fn test_fragment_sequence_round_trip_boundaries() {
    let mut builder = ManagementFrameBuilder::new_blank();
    builder.fragment_number(15);
    builder.sequence_number(4095);
    let frame = builder.build();
    assert_eq!(frame.fragment_number(), 15);
    assert_eq!(frame.sequence_number(), 4095);

    let mut builder = ManagementFrameBuilder::new_blank();
    builder.sequence_number(4095);
    builder.fragment_number(3);
    builder.sequence_number(1);
    let frame = builder.build();
    assert_eq!(frame.fragment_number(), 3);
    assert_eq!(frame.sequence_number(), 1);
}

#[test]
fn test_reason_code_round_trip() {
    for (reason, code) in [
        (ReasonCode::UnspecifiedReason, 1u16),
        (ReasonCode::STALeavingIBSSOrESS, 3),
        (ReasonCode::STALeavingBSS, 8),
        (ReasonCode::MeshSTAPerformsChannelSwitchWithUnspecifiedReason, 66),
        (ReasonCode::Reserved(40), 40),
        (ReasonCode::Reserved(700), 700),
    ] {
        assert_eq!(ReasonCode::from_u16(code), reason);
        assert_eq!(reason.into_u16(), code);
    }
}

#[test]
fn test_status_code_round_trip() {
    for (status, code) in [
        (StatusCode::Successful, 0u16),
        (StatusCode::UnspecifiedFailure, 1),
        (StatusCode::AuthenticationRejectedDueToUnknownAuthenticationServer, 113),
        (StatusCode::Reserved(4), 4),
        (StatusCode::Reserved(1000), 1000),
    ] {
        assert_eq!(StatusCode::from_u16(code), status);
        assert_eq!(status.into_u16(), code);
    }
}

#[test]
fn test_type_codes() {
    for &(type_, code) in &[
        (FrameType::Management, 0u8),
        (FrameType::Control, 1),
        (FrameType::Data, 2),
        (FrameType::Reserved(3), 3),
    ] {
        assert_eq!(type_.into_u8(), code);
        assert_eq!(FrameType::from_u8(code), type_);
    }
}
