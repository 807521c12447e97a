//! Decoding and encoding of IEEE 802.11 MAC frames.
//!
//! Frames are read through lightweight views over a byte buffer: a generic
//! [`Frame`] view for the fixed header, per-category views for Management,
//! Control and Data frames, and per-subtype views for the management
//! subtypes, down to the tagged-parameter region and the RSN information
//! element.  Builders mirror every decoder bit layout through
//! read-modify-write masking, so that decoding a built frame returns the
//! values that were set.

mod control;
mod data;
mod frame;
pub mod header;
mod mac_address;
mod management;
mod types;
pub mod wire;

pub use control::ControlFrame;
pub use data::{DataFrame, DataFrameBuilder};
pub use frame::{Frame, FrameBuilder, FrameLayer, TruncatedFrame};
pub use mac_address::MacAddress;
pub use management::{
    AKMSuite, AKMSuiteType, AssociationRequestFrame, AssociationResponseFrame,
    AuthenticationAlgorithm, AuthenticationFrame, BeaconFrame, CapabilitiesInfo, CipherSuite,
    CipherSuiteType, DeauthenticationFrame, DeauthenticationFrameBuilder, DisassociateFrame,
    DisassociateFrameBuilder, ManagementFrame, ManagementFrameBuilder, ManagementFrameLayer,
    OverflowError, ProbeRequestFrame, ProbeResponseFrame, RSNCapabilities, RSNVersion,
    TagName, TaggedParameters, RSN,
};
pub use types::{
    ControlSubtype, DSStatus, DataSubtype, DurationID, FrameSubtype, FrameType, FrameVersion,
    ManagementSubtype, ReasonCode, StatusCode,
};
