//! The Management-frame view and its per-subtype layers.

mod association_request;
mod association_response;
mod authentication;
mod beacon;
mod builder;
mod capabilities;
mod deauthentication;
mod deauthentication_builder;
mod disassociate;
mod disassociate_builder;
mod probe_request;
mod probe_response;
mod rsn;
mod tagged_parameters;

pub use association_request::AssociationRequestFrame;
pub use association_response::AssociationResponseFrame;
pub use authentication::{AuthenticationAlgorithm, AuthenticationFrame};
pub use beacon::BeaconFrame;
pub use builder::ManagementFrameBuilder;
pub use capabilities::CapabilitiesInfo;
pub use deauthentication::DeauthenticationFrame;
pub use deauthentication_builder::DeauthenticationFrameBuilder;
pub use disassociate::DisassociateFrame;
pub use disassociate_builder::DisassociateFrameBuilder;
pub use probe_request::ProbeRequestFrame;
pub use probe_response::ProbeResponseFrame;
pub use rsn::{AKMSuite, AKMSuiteType, CipherSuite, CipherSuiteType, RSNCapabilities, RSNVersion, RSN};
pub use tagged_parameters::{OverflowError, TagName, TaggedParameters};

use vstd::prelude::*;

use crate::frame::TruncatedFrame;
use crate::header;
use crate::mac_address::MacAddress;
use crate::types::{DSStatus, DurationID, FrameSubtype, FrameType, FrameVersion};
use crate::wire::copy_bytes;

verus! {

/// A buffer long enough for the management view: header, second and third
/// address slots and the fragment/sequence field.
pub open spec fn management_frame_ok(b: Seq<u8>) -> bool {
    b.len() >= 24
}

/// The management subtype codes that have a dedicated layer.
pub open spec fn management_layer_known(c: u8) -> bool {
    c == 0 || c == 1 || c == 4 || c == 5 || c == 8 || c == 10 || c == 11 || c == 12
}

/// Shortest buffer on which each dedicated management layer can be built:
/// the fixed-parameter region of the subtype must be present.
pub open spec fn management_layer_min(c: u8) -> int {
    if c == 8 || c == 5 {
        36int  // Beacon, ProbeResponse: timestamp, interval, capabilities
    } else if c == 11 {
        30int  // Authentication: algorithm, sequence, status
    } else if c == 1 {
        30int  // AssociationResponse: capabilities, status, association id
    } else if c == 0 {
        28int  // AssociationRequest: capabilities, listen interval
    } else if c == 10 || c == 12 {
        26int  // Disassociate, Deauthentication: reason code
    } else {
        24int  // ProbeRequest: tagged parameters only
    }
}

/// The frame reinterpreted as its management subtype's view.
pub enum ManagementFrameLayer {
    Beacon(BeaconFrame),
    ProbeRequest(ProbeRequestFrame),
    ProbeResponse(ProbeResponseFrame),
    Authentication(AuthenticationFrame),
    Deauthentication(DeauthenticationFrame),
    Disassociate(DisassociateFrame),
    AssociationRequest(AssociationRequestFrame),
    AssociationResponse(AssociationResponseFrame),
}

/// A read-only view over a Management frame.
pub struct ManagementFrame {
    bytes: Vec<u8>,
}

impl View for ManagementFrame {
    type V = Seq<u8>;

    closed spec fn view(&self) -> Seq<u8> {
        self.bytes@
    }
}

impl ManagementFrame {
    #[verifier::type_invariant]
    spec fn wf(&self) -> bool {
        management_frame_ok(self.bytes@)
    }

    /// Wraps a buffer already known to hold the management fixed fields.
    pub(crate) fn new_checked(bytes: Vec<u8>) -> (r: ManagementFrame)
        requires
            management_frame_ok(bytes@),
        ensures
            r@ == bytes@,
    {
        ManagementFrame { bytes }
    }

    /// Wraps a buffer, refusing one shorter than the management fixed
    /// fields.
    pub fn new(bytes: Vec<u8>) -> (r: Result<ManagementFrame, TruncatedFrame>)
        ensures
            match r {
                Ok(f) => management_frame_ok(bytes@) && f@ == bytes@,
                Err(e) => {
                    &&& !management_frame_ok(bytes@)
                    &&& e.required == 24
                    &&& e.available == bytes@.len()
                },
            },
    {
        if bytes.len() < 24 {
            return Err(TruncatedFrame { required: 24, available: bytes.len() });
        }
        Ok(ManagementFrame { bytes })
    }


    pub fn version(&self) -> (r: FrameVersion)
        ensures
            r == FrameVersion::from_u8(header::version_bits(self@)),
    {
        proof {
            use_type_invariant(self);
        }
        header::get_version(&self.bytes)
    }

    pub fn type_(&self) -> (r: FrameType)
        ensures
            r == FrameType::from_u8(header::type_bits(self@)),
    {
        proof {
            use_type_invariant(self);
        }
        header::get_type(&self.bytes)
    }

    pub fn subtype(&self) -> (r: FrameSubtype)
        ensures
            r == FrameSubtype::from_u8(
                FrameType::from_u8(header::type_bits(self@)),
                header::subtype_bits(self@),
            ),
    {
        proof {
            use_type_invariant(self);
        }
        header::get_subtype(&self.bytes)
    }

    pub fn more_fragments(&self) -> (r: bool)
        ensures
            r == header::flag_bit(self@, 0x04),
    {
        proof {
            use_type_invariant(self);
        }
        header::get_flag(&self.bytes, 0x04)
    }

    pub fn retry(&self) -> (r: bool)
        ensures
            r == header::flag_bit(self@, 0x08),
    {
        proof {
            use_type_invariant(self);
        }
        header::get_flag(&self.bytes, 0x08)
    }

    pub fn pwr_mgt(&self) -> (r: bool)
        ensures
            r == header::flag_bit(self@, 0x10),
    {
        proof {
            use_type_invariant(self);
        }
        header::get_flag(&self.bytes, 0x10)
    }

    pub fn more_data(&self) -> (r: bool)
        ensures
            r == header::flag_bit(self@, 0x20),
    {
        proof {
            use_type_invariant(self);
        }
        header::get_flag(&self.bytes, 0x20)
    }

    pub fn order(&self) -> (r: bool)
        ensures
            r == header::flag_bit(self@, 0x80),
    {
        proof {
            use_type_invariant(self);
        }
        header::get_flag(&self.bytes, 0x80)
    }

    /// Duration or Association Identifier
    pub fn duration_or_id(&self) -> (r: DurationID)
        ensures
            r == header::spec_duration_or_id(self@),
    {
        proof {
            use_type_invariant(self);
        }
        header::get_duration_or_id(&self.bytes)
    }

    pub fn protected(&self) -> (r: bool)
        ensures
            r == header::flag_bit(self@, 0x40),
    {
        proof {
            use_type_invariant(self);
        }
        header::get_flag(&self.bytes, 0x40)
    }

    pub fn ds_status(&self) -> (r: DSStatus)
        ensures
            r == DSStatus::from_bools(
                header::flag_bit(self@, 0x02),
                header::flag_bit(self@, 0x01),
            ),
    {
        proof {
            use_type_invariant(self);
        }
        let from_ds = header::get_flag(&self.bytes, 0x02);
        let to_ds = header::get_flag(&self.bytes, 0x01);
        DSStatus::from_bools(from_ds, to_ds)
    }

    pub fn addr1(&self) -> (r: MacAddress)
        ensures
            r@ == header::addr_bits(self@, 4),
    {
        proof {
            use_type_invariant(self);
        }
        header::get_mac(&self.bytes, header::ADDR1_OFFSET)
    }

    pub fn addr2(&self) -> (r: MacAddress)
        ensures
            r@ == header::addr_bits(self@, 10),
    {
        proof {
            use_type_invariant(self);
        }
        header::get_mac(&self.bytes, header::ADDR2_OFFSET)
    }

    pub fn addr3(&self) -> (r: MacAddress)
        ensures
            r@ == header::addr_bits(self@, 16),
    {
        proof {
            use_type_invariant(self);
        }
        header::get_mac(&self.bytes, header::ADDR3_OFFSET)
    }

    /// Receiver Address
    /// Who this packet is destined for wirelessly.
    pub fn receiver_address(&self) -> (r: MacAddress)
        ensures
            r@ == header::addr_bits(self@, 4),
    {
        self.addr1()
    }

    /// Destination Address
    /// Who the packet is destined for: the receiver.
    pub fn destination_address(&self) -> (r: Option<MacAddress>)
        ensures
            r matches Some(m) && m@ == header::addr_bits(self@, 4),
    {
        Some(self.receiver_address())
    }

    /// Transmitter Address
    /// Who this packet came from wirelessly.
    pub fn transmitter_address(&self) -> (r: Option<MacAddress>)
        ensures
            r matches Some(m) && m@ == header::addr_bits(self@, 10),
    {
        Some(self.addr2())
    }

    /// Source Address
    /// Who the packet came from: the transmitter.
    pub fn source_address(&self) -> (r: Option<MacAddress>)
        ensures
            r matches Some(m) && m@ == header::addr_bits(self@, 10),
    {
        self.transmitter_address()
    }

    /// Basic Service Set Address (BSSID)
    /// Basic Service Set ID for Multicast.
    pub fn bssid_address(&self) -> (r: Option<MacAddress>)
        ensures
            r matches Some(m) && m@ == header::addr_bits(self@, 16),
    {
        Some(self.addr3())
    }

    /// Management frames name no station.
    pub fn station_address(&self) -> (r: Option<MacAddress>)
        ensures
            r is None,
    {
        None
    }

    /// Fragment Number
    pub fn fragment_number(&self) -> (r: u8)
        ensures
            r == header::fragment_bits(self@),
    {
        proof {
            use_type_invariant(self);
        }
        header::get_fragment_number(&self.bytes)
    }

    /// Sequence Number
    pub fn sequence_number(&self) -> (r: u16)
        ensures
            r == header::sequence_bits(self@),
    {
        proof {
            use_type_invariant(self);
        }
        header::get_sequence_number(&self.bytes)
    }

    /// The frame reinterpreted under its subtype's view, when the subtype
    /// has a dedicated layer and the buffer holds that layer's fixed
    /// parameters.
    pub fn next_layer(&self) -> (r: Option<ManagementFrameLayer>)
        ensures
            ({
                let c = header::subtype_bits(self@);
                match r {
                    Some(ManagementFrameLayer::Beacon(f)) => c == 8 && f@ == self@,
                    Some(ManagementFrameLayer::ProbeRequest(f)) => c == 4 && f@ == self@,
                    Some(ManagementFrameLayer::ProbeResponse(f)) => c == 5 && f@ == self@,
                    Some(ManagementFrameLayer::Authentication(f)) => c == 11 && f@ == self@,
                    Some(ManagementFrameLayer::Deauthentication(f)) => c == 12 && f@ == self@,
                    Some(ManagementFrameLayer::Disassociate(f)) => c == 10 && f@ == self@,
                    Some(ManagementFrameLayer::AssociationRequest(f)) => c == 0 && f@ == self@,
                    Some(ManagementFrameLayer::AssociationResponse(f)) => c == 1 && f@ == self@,
                    None => !management_layer_known(c) || self@.len() < management_layer_min(c),
                }
            }),
            r is Some <==> management_layer_known(header::subtype_bits(self@)) && self@.len()
                >= management_layer_min(header::subtype_bits(self@)),
    {
        proof {
            use_type_invariant(self);
        }
        let c = (self.bytes[0] & 0xf0) >> 4;
        if c == 8 {
            match BeaconFrame::new(copy_bytes(&self.bytes)) {
                Ok(f) => Some(ManagementFrameLayer::Beacon(f)),
                Err(_) => None,
            }
        } else if c == 4 {
            match ProbeRequestFrame::new(copy_bytes(&self.bytes)) {
                Ok(f) => Some(ManagementFrameLayer::ProbeRequest(f)),
                Err(_) => None,
            }
        } else if c == 5 {
            match ProbeResponseFrame::new(copy_bytes(&self.bytes)) {
                Ok(f) => Some(ManagementFrameLayer::ProbeResponse(f)),
                Err(_) => None,
            }
        } else if c == 11 {
            match AuthenticationFrame::new(copy_bytes(&self.bytes)) {
                Ok(f) => Some(ManagementFrameLayer::Authentication(f)),
                Err(_) => None,
            }
        } else if c == 12 {
            match DeauthenticationFrame::new(copy_bytes(&self.bytes)) {
                Ok(f) => Some(ManagementFrameLayer::Deauthentication(f)),
                Err(_) => None,
            }
        } else if c == 10 {
            match DisassociateFrame::new(copy_bytes(&self.bytes)) {
                Ok(f) => Some(ManagementFrameLayer::Disassociate(f)),
                Err(_) => None,
            }
        } else if c == 0 {
            match AssociationRequestFrame::new(copy_bytes(&self.bytes)) {
                Ok(f) => Some(ManagementFrameLayer::AssociationRequest(f)),
                Err(_) => None,
            }
        } else if c == 1 {
            match AssociationResponseFrame::new(copy_bytes(&self.bytes)) {
                Ok(f) => Some(ManagementFrameLayer::AssociationResponse(f)),
                Err(_) => None,
            }
        } else {
            None
        }
    }
}

} // verus!
