//! Builder round trips: every field set through a builder decodes back.

use ieee80211::{
    DSStatus, DataSubtype, DataFrameBuilder, DeauthenticationFrameBuilder,
    DisassociateFrameBuilder, FrameBuilder, FrameSubtype, FrameType, FrameVersion, MacAddress,
    ManagementFrameBuilder, ManagementSubtype, ReasonCode,
};

fn mac(s: &str) -> MacAddress {
    MacAddress::from(s.parse::<eui48::MacAddress>().unwrap().to_array())
}

#[test]
fn test_frame_builder() {
    let mut frame_builder = FrameBuilder::new();

    frame_builder.version(FrameVersion::Standard);
    frame_builder.type_(FrameType::Data);
    frame_builder.subtype(FrameSubtype::Data(DataSubtype::Null));
    frame_builder.ds_status(DSStatus::WDSOrMesh);

    frame_builder.more_fragments(true);
    frame_builder.retry(true);
    frame_builder.pwr_mgt(true);
    frame_builder.more_data(true);
    frame_builder.protected(true);
    frame_builder.order(true);

    frame_builder.receiver_address(mac("11:22:33:44:55:66"));

    let frame = frame_builder.build();

    assert_eq!(frame.version(), FrameVersion::Standard, "version");
    assert_eq!(frame.type_(), FrameType::Data, "type_");
    assert_eq!(frame.subtype(), FrameSubtype::Data(DataSubtype::Null), "subtype");
    assert_eq!(frame.ds_status(), DSStatus::WDSOrMesh, "ds_status");

    assert_eq!(frame.more_fragments(), true, "more_fragments");
    assert_eq!(frame.retry(), true, "retry");
    assert_eq!(frame.pwr_mgt(), true, "pwr_mgt");
    assert_eq!(frame.more_data(), true, "more_data");
    assert_eq!(frame.protected(), true, "protected");
    assert_eq!(frame.order(), true, "order");

    assert_eq!(frame.receiver_address(), mac("11:22:33:44:55:66"), "receiver_address");
}

#[test]
fn test_data_frame_builder() {
    let mut data_frame_builder = DataFrameBuilder::new();

    data_frame_builder.version(FrameVersion::Standard);
    data_frame_builder.type_(FrameType::Data);
    data_frame_builder.subtype(FrameSubtype::Data(DataSubtype::QoSData));
    data_frame_builder.ds_status(DSStatus::FromDSToSTA);

    data_frame_builder.more_fragments(false);
    data_frame_builder.retry(true);
    data_frame_builder.pwr_mgt(true);
    data_frame_builder.more_data(false);
    data_frame_builder.protected(false);
    data_frame_builder.order(false);

    data_frame_builder.source_address(mac("11:22:33:44:55:66"));
    data_frame_builder.destination_address(mac("22:22:33:44:55:66"));
    data_frame_builder.bssid_address(mac("33:22:33:44:55:66"));

    data_frame_builder.sequence_number(10);
    data_frame_builder.fragment_number(11);

    data_frame_builder.next_layer(b"hello!!");

    let data_frame = data_frame_builder.build();

    assert_eq!(data_frame.version(), FrameVersion::Standard, "version");
    assert_eq!(data_frame.type_(), FrameType::Data, "type_");
    assert_eq!(data_frame.subtype(), FrameSubtype::Data(DataSubtype::QoSData), "subtype");
    assert_eq!(data_frame.ds_status(), DSStatus::FromDSToSTA, "ds_status");

    assert_eq!(data_frame.more_fragments(), false, "more_fragments");
    assert_eq!(data_frame.retry(), true, "retry");
    assert_eq!(data_frame.pwr_mgt(), true, "pwr_mgt");
    assert_eq!(data_frame.more_data(), false, "more_data");
    assert_eq!(data_frame.protected(), false, "protected");
    assert_eq!(data_frame.order(), false, "order");

    assert_eq!(data_frame.source_address().unwrap(), mac("11:22:33:44:55:66"), "source_address");
    assert_eq!(
        data_frame.destination_address().expect("destination_address"),
        mac("22:22:33:44:55:66"),
        "destination_address"
    );
    assert_eq!(
        data_frame.bssid_address().expect("bssid_address"),
        mac("33:22:33:44:55:66"),
        "bssid_address"
    );

    assert_eq!(data_frame.sequence_number(), 10);
    assert_eq!(data_frame.fragment_number(), 11);

    assert_eq!(&data_frame.next_layer().unwrap()[..], b"hello!!");
}

#[test]
fn test_management_frame_builder() {
    let mut management_frame_builder = ManagementFrameBuilder::new_blank();

    management_frame_builder.version(FrameVersion::Standard);
    management_frame_builder.subtype(FrameSubtype::Management(ManagementSubtype::Beacon));
    management_frame_builder.ds_status(DSStatus::FromDSToSTA);

    management_frame_builder.more_fragments(false);
    management_frame_builder.retry(true);
    management_frame_builder.pwr_mgt(true);
    management_frame_builder.more_data(false);
    management_frame_builder.protected(false);
    management_frame_builder.order(false);

    management_frame_builder.source_address(mac("11:22:33:44:55:66"));
    management_frame_builder.destination_address(mac("22:22:33:44:55:66"));
    management_frame_builder.bssid_address(mac("33:22:33:44:55:66"));

    management_frame_builder.sequence_number(10);
    management_frame_builder.fragment_number(11);

    let management_frame = management_frame_builder.build();

    assert_eq!(management_frame.version(), FrameVersion::Standard, "version");
    assert_eq!(
        management_frame.subtype(),
        FrameSubtype::Management(ManagementSubtype::Beacon),
        "subtype"
    );
    assert_eq!(management_frame.ds_status(), DSStatus::FromDSToSTA, "ds_status");

    assert_eq!(management_frame.more_fragments(), false, "more_fragments");
    assert_eq!(management_frame.retry(), true, "retry");
    assert_eq!(management_frame.pwr_mgt(), true, "pwr_mgt");
    assert_eq!(management_frame.more_data(), false, "more_management");
    assert_eq!(management_frame.protected(), false, "protected");
    assert_eq!(management_frame.order(), false, "order");

    assert_eq!(
        management_frame.source_address().unwrap(),
        mac("11:22:33:44:55:66"),
        "source_address"
    );
    assert_eq!(
        management_frame.destination_address().expect("destination_address"),
        mac("22:22:33:44:55:66"),
        "destination_address"
    );
    assert_eq!(
        management_frame.bssid_address().expect("bssid_address"),
        mac("33:22:33:44:55:66"),
        "bssid_address"
    );

    assert_eq!(management_frame.sequence_number(), 10);
    assert_eq!(management_frame.fragment_number(), 11);
}

#[test]
fn test_deauthentication_frame_builder() {
    let mut deauthentication_frame_builder = DeauthenticationFrameBuilder::new();

    deauthentication_frame_builder.version(FrameVersion::Standard);
    deauthentication_frame_builder.subtype(FrameSubtype::Management(ManagementSubtype::Beacon));
    deauthentication_frame_builder.ds_status(DSStatus::FromDSToSTA);

    deauthentication_frame_builder.more_fragments(false);
    deauthentication_frame_builder.retry(true);
    deauthentication_frame_builder.pwr_mgt(true);
    deauthentication_frame_builder.more_data(false);
    deauthentication_frame_builder.protected(false);
    deauthentication_frame_builder.order(false);

    deauthentication_frame_builder.source_address(mac("11:22:33:44:55:66"));
    deauthentication_frame_builder.destination_address(mac("22:22:33:44:55:66"));
    deauthentication_frame_builder.bssid_address(mac("33:22:33:44:55:66"));

    deauthentication_frame_builder.sequence_number(10);
    deauthentication_frame_builder.fragment_number(11);

    deauthentication_frame_builder.reason_code(ReasonCode::STALeavingBSS);

    let deauthentication_frame = deauthentication_frame_builder.build();

    assert_eq!(deauthentication_frame.version(), FrameVersion::Standard, "version");
    assert_eq!(
        deauthentication_frame.subtype(),
        FrameSubtype::Management(ManagementSubtype::Beacon),
        "subtype"
    );
    assert_eq!(deauthentication_frame.ds_status(), DSStatus::FromDSToSTA, "ds_status");

    assert_eq!(deauthentication_frame.more_fragments(), false, "more_fragments");
    assert_eq!(deauthentication_frame.retry(), true, "retry");
    assert_eq!(deauthentication_frame.pwr_mgt(), true, "pwr_mgt");
    assert_eq!(deauthentication_frame.more_data(), false, "more_deauthentication");
    assert_eq!(deauthentication_frame.protected(), false, "protected");
    assert_eq!(deauthentication_frame.order(), false, "order");

    assert_eq!(
        deauthentication_frame.source_address().expect("source_address"),
        mac("11:22:33:44:55:66"),
        "source_address"
    );
    assert_eq!(
        deauthentication_frame.destination_address().expect("destination_address"),
        mac("22:22:33:44:55:66"),
        "destination_address"
    );
    assert_eq!(
        deauthentication_frame.bssid_address().expect("bssid_address"),
        mac("33:22:33:44:55:66"),
        "bssid_address"
    );

    assert_eq!(deauthentication_frame.sequence_number(), 10);
    assert_eq!(deauthentication_frame.fragment_number(), 11);

    assert_eq!(deauthentication_frame.reason_code(), ReasonCode::STALeavingBSS, "reason_code");
}

#[test]
fn test_disassociate_frame_builder() {
    let mut disassociate_frame_builder = DisassociateFrameBuilder::new();

    disassociate_frame_builder.version(FrameVersion::Standard);
    disassociate_frame_builder.subtype(FrameSubtype::Management(ManagementSubtype::Beacon));
    disassociate_frame_builder.ds_status(DSStatus::FromDSToSTA);

    disassociate_frame_builder.more_fragments(false);
    disassociate_frame_builder.retry(true);
    disassociate_frame_builder.pwr_mgt(true);
    disassociate_frame_builder.more_data(false);
    disassociate_frame_builder.protected(false);
    disassociate_frame_builder.order(false);

    disassociate_frame_builder.source_address(mac("11:22:33:44:55:66"));
    disassociate_frame_builder.destination_address(mac("22:22:33:44:55:66"));
    disassociate_frame_builder.bssid_address(mac("33:22:33:44:55:66"));

    disassociate_frame_builder.sequence_number(10);
    disassociate_frame_builder.fragment_number(11);

    disassociate_frame_builder.reason_code(ReasonCode::STALeavingBSS);

    let disassociate_frame = disassociate_frame_builder.build();

    assert_eq!(disassociate_frame.version(), FrameVersion::Standard, "version");
    assert_eq!(
        disassociate_frame.subtype(),
        FrameSubtype::Management(ManagementSubtype::Beacon),
        "subtype"
    );
    assert_eq!(disassociate_frame.ds_status(), DSStatus::FromDSToSTA, "ds_status");

    assert_eq!(disassociate_frame.more_fragments(), false, "more_fragments");
    assert_eq!(disassociate_frame.retry(), true, "retry");
    assert_eq!(disassociate_frame.pwr_mgt(), true, "pwr_mgt");
    assert_eq!(disassociate_frame.more_data(), false, "more_disassociate");
    assert_eq!(disassociate_frame.protected(), false, "protected");
    assert_eq!(disassociate_frame.order(), false, "order");

    assert_eq!(
        disassociate_frame.source_address().expect("source_address"),
        mac("11:22:33:44:55:66"),
        "source_address"
    );
    assert_eq!(
        disassociate_frame.destination_address().expect("destination_address"),
        mac("22:22:33:44:55:66"),
        "destination_address"
    );
    assert_eq!(
        disassociate_frame.bssid_address().expect("bssid_address"),
        mac("33:22:33:44:55:66"),
        "bssid_address"
    );

    assert_eq!(disassociate_frame.sequence_number(), 10);
    assert_eq!(disassociate_frame.fragment_number(), 11);

    assert_eq!(disassociate_frame.reason_code(), ReasonCode::STALeavingBSS, "reason_code");
}
