//! The generic frame view: fixed header fields shared by every category.

mod builder;

pub use builder::FrameBuilder;

use vstd::prelude::*;

use crate::control::ControlFrame;
use crate::data::DataFrame;
use crate::header;
use crate::mac_address::MacAddress;
use crate::management::ManagementFrame;
use crate::types::{DSStatus, DurationID, FrameSubtype, FrameType, FrameVersion};
use crate::wire::copy_bytes;

verus! {

/// A buffer was too short for the field or region that was asked of it:
/// `required` bytes were needed, `available` were there.
#[derive(Debug, Copy, Clone, PartialEq, Eq, Structural)]
pub struct TruncatedFrame {
    pub required: usize,
    pub available: usize,
}

/// The frame reinterpreted as its category's view.
pub enum FrameLayer {
    Management(ManagementFrame),
    Control(ControlFrame),
    Data(DataFrame),
}

/// A read-only view over a whole MAC frame.  Constructing it checks once
/// that the buffer holds the fixed header; every accessor afterwards is
/// total.
pub struct Frame {
    bytes: Vec<u8>,
}

impl View for Frame {
    type V = Seq<u8>;

    closed spec fn view(&self) -> Seq<u8> {
        self.bytes@
    }
}

impl Frame {
    #[verifier::type_invariant]
    spec fn wf(&self) -> bool {
        self.bytes.len() >= header::MIN_FRAME_LEN
    }

    /// Wraps a buffer already known to hold the fixed header.
    pub(crate) fn new_checked(bytes: Vec<u8>) -> (r: Frame)
        requires
            bytes@.len() >= 10,
        ensures
            r@ == bytes@,
    {
        Frame { bytes }
    }

    /// Wraps a buffer, refusing one shorter than the 10-byte fixed header.
    pub fn new(bytes: Vec<u8>) -> (r: Result<Frame, TruncatedFrame>)
        ensures
            match r {
                Ok(f) => bytes@.len() >= 10 && f@ == bytes@,
                Err(e) => bytes@.len() < 10 && e.required == 10 && e.available == bytes@.len(),
            },
    {
        if bytes.len() < header::MIN_FRAME_LEN {
            Err(TruncatedFrame { required: header::MIN_FRAME_LEN, available: bytes.len() })
        } else {
            Ok(Frame { bytes })
        }
    }

    pub fn version(&self) -> (r: FrameVersion)
        ensures
            r == FrameVersion::from_u8(header::version_bits(self@)),
    {
        proof {
            use_type_invariant(self);
        }
        header::get_version(&self.bytes)
    }

    /// Main IEEE 802.11 Frame Type
    pub fn type_(&self) -> (r: FrameType)
        ensures
            r == FrameType::from_u8(header::type_bits(self@)),
    {
        proof {
            use_type_invariant(self);
        }
        header::get_type(&self.bytes)
    }

    /// IEEE 802.11 Frame Subtype
    pub fn subtype(&self) -> (r: FrameSubtype)
        ensures
            r == FrameSubtype::from_u8(
                FrameType::from_u8(header::type_bits(self@)),
                header::subtype_bits(self@),
            ),
    {
        proof {
            use_type_invariant(self);
        }
        header::get_subtype(&self.bytes)
    }

    /// to Distribution System
    pub fn to_ds(&self) -> (r: bool)
        ensures
            r == header::flag_bit(self@, 0x01),
    {
        proof {
            use_type_invariant(self);
        }
        header::get_flag(&self.bytes, 0x01)
    }

    /// from Distribution System
    pub fn from_ds(&self) -> (r: bool)
        ensures
            r == header::flag_bit(self@, 0x02),
    {
        proof {
            use_type_invariant(self);
        }
        header::get_flag(&self.bytes, 0x02)
    }

    pub fn ds_status(&self) -> (r: DSStatus)
        ensures
            r == DSStatus::from_bools(
                header::flag_bit(self@, 0x02),
                header::flag_bit(self@, 0x01),
            ),
    {
        DSStatus::from_bools(self.from_ds(), self.to_ds())
    }

    /// 0: This is the last fragment
    /// 1: More fragments follow
    pub fn more_fragments(&self) -> (r: bool)
        ensures
            r == header::flag_bit(self@, 0x04),
    {
        proof {
            use_type_invariant(self);
        }
        header::get_flag(&self.bytes, 0x04)
    }

    /// 0: Frame is not being retransmitted
    /// 1: Frame is being retransmitted
    pub fn retry(&self) -> (r: bool)
        ensures
            r == header::flag_bit(self@, 0x08),
    {
        proof {
            use_type_invariant(self);
        }
        header::get_flag(&self.bytes, 0x08)
    }

    /// 0: STA will stay up
    /// 1: STA will go to sleep
    pub fn pwr_mgt(&self) -> (r: bool)
        ensures
            r == header::flag_bit(self@, 0x10),
    {
        proof {
            use_type_invariant(self);
        }
        header::get_flag(&self.bytes, 0x10)
    }

    /// 0: No data buffered
    /// 1: Data is buffered for STA at AP
    pub fn more_data(&self) -> (r: bool)
        ensures
            r == header::flag_bit(self@, 0x20),
    {
        proof {
            use_type_invariant(self);
        }
        header::get_flag(&self.bytes, 0x20)
    }

    /// 0: Data is not protected
    /// 1: Data is protected
    pub fn protected(&self) -> (r: bool)
        ensures
            r == header::flag_bit(self@, 0x40),
    {
        proof {
            use_type_invariant(self);
        }
        header::get_flag(&self.bytes, 0x40)
    }

    /// 0: Not strictly ordered
    /// 1: Strictly ordered
    pub fn order(&self) -> (r: bool)
        ensures
            r == header::flag_bit(self@, 0x80),
    {
        proof {
            use_type_invariant(self);
        }
        header::get_flag(&self.bytes, 0x80)
    }

    /// Duration or Association Identifier
    pub fn duration_or_id(&self) -> (r: DurationID)
        ensures
            r == header::spec_duration_or_id(self@),
    {
        proof {
            use_type_invariant(self);
        }
        header::get_duration_or_id(&self.bytes)
    }

    pub fn addr1(&self) -> (r: MacAddress)
        ensures
            r@ == header::addr_bits(self@, 4),
    {
        proof {
            use_type_invariant(self);
        }
        header::get_mac(&self.bytes, header::ADDR1_OFFSET)
    }

    /// Receiver Address
    /// Who this packet is destined for wirelessly.
    /// Address 1
    pub fn receiver_address(&self) -> (r: MacAddress)
        ensures
            r@ == header::addr_bits(self@, 4),
    {
        self.addr1()
    }

    /// Destination Address
    /// Who the packet is destined for.
    pub fn destination_address(&self) -> (r: Option<MacAddress>)
        ensures
            r matches Some(m) && m@ == header::addr_bits(self@, 4),
    {
        Some(self.receiver_address())
    }

    /// The frame reinterpreted under its category's view, when the category
    /// is known and the buffer holds that category's fixed fields.
    pub fn next_layer(&self) -> (r: Option<FrameLayer>)
        ensures
            match r {
                Some(FrameLayer::Management(m)) => {
                    &&& header::type_bits(self@) == 0
                    &&& crate::management::management_frame_ok(self@)
                    &&& m@ == self@
                },
                Some(FrameLayer::Control(c)) => {
                    &&& header::type_bits(self@) == 1
                    &&& crate::control::control_frame_ok(self@)
                    &&& c@ == self@
                },
                Some(FrameLayer::Data(d)) => {
                    &&& header::type_bits(self@) == 2
                    &&& crate::data::data_frame_ok(self@)
                    &&& d@ == self@
                },
                None => {
                    &&& header::type_bits(self@) == 0 ==> !crate::management::management_frame_ok(
                        self@,
                    )
                    &&& header::type_bits(self@) == 1 ==> !crate::control::control_frame_ok(self@)
                    &&& header::type_bits(self@) == 2 ==> !crate::data::data_frame_ok(self@)
                },
            },
    {
        proof {
            use_type_invariant(self);
        }
        match self.type_() {
            FrameType::Management => {
                match ManagementFrame::new(copy_bytes(&self.bytes)) {
                    Ok(m) => Some(FrameLayer::Management(m)),
                    Err(_) => None,
                }
            },
            FrameType::Control => {
                match ControlFrame::new(copy_bytes(&self.bytes)) {
                    Ok(c) => Some(FrameLayer::Control(c)),
                    Err(_) => None,
                }
            },
            FrameType::Data => {
                match DataFrame::new(copy_bytes(&self.bytes)) {
                    Ok(d) => Some(FrameLayer::Data(d)),
                    Err(_) => None,
                }
            },
            FrameType::Reserved(_) => None,
        }
    }
}

} // verus!
