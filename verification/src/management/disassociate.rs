//! The Disassociate frame view: a reason code at 24.

use vstd::prelude::*;

use crate::frame::TruncatedFrame;
use crate::header;
use crate::mac_address::MacAddress;
use crate::types::{DSStatus, FrameSubtype, FrameType, FrameVersion, ReasonCode};
use crate::wire::{read_u16_at, u16_le};

verus! {

/// A read-only view over a Disassociate frame.
pub struct DisassociateFrame {
    bytes: Vec<u8>,
}

impl View for DisassociateFrame {
    type V = Seq<u8>;

    closed spec fn view(&self) -> Seq<u8> {
        self.bytes@
    }
}

impl DisassociateFrame {
    #[verifier::type_invariant]
    spec fn wf(&self) -> bool {
        self.bytes.len() >= 26
    }

    /// Wraps a buffer already known to hold the fixed parameters.
    pub(crate) fn new_checked(bytes: Vec<u8>) -> (r: DisassociateFrame)
        requires
            bytes@.len() >= 26,
        ensures
            r@ == bytes@,
    {
        DisassociateFrame { bytes }
    }

    /// Wraps a buffer, refusing one shorter than this subtype's fixed
    /// parameters.
    pub fn new(bytes: Vec<u8>) -> (r: Result<DisassociateFrame, TruncatedFrame>)
        ensures
            match r {
                Ok(f) => bytes@.len() >= 26 && f@ == bytes@,
                Err(e) => {
                    &&& bytes@.len() < 26
                    &&& e.required == 26
                    &&& e.available == bytes@.len()
                },
            },
    {
        if bytes.len() < 26 {
            return Err(TruncatedFrame { required: 26, available: bytes.len() });
        }
        Ok(DisassociateFrame { bytes })
    }

    /// Why the sender is tearing the association or authentication down.
    pub fn reason_code(&self) -> (r: ReasonCode)
        ensures
            r == ReasonCode::from_u16(u16_le(self@, 24)),
    {
        proof {
            use_type_invariant(self);
        }
        ReasonCode::from_u16(read_u16_at(&self.bytes, 24))
    }

    pub fn version(&self) -> (r: FrameVersion)
        ensures
            r == FrameVersion::from_u8(header::version_bits(self@)),
    {
        proof {
            use_type_invariant(self);
        }
        header::get_version(&self.bytes)
    }

    pub fn subtype(&self) -> (r: FrameSubtype)
        ensures
            r == FrameSubtype::from_u8(
                FrameType::from_u8(header::type_bits(self@)),
                header::subtype_bits(self@),
            ),
    {
        proof {
            use_type_invariant(self);
        }
        header::get_subtype(&self.bytes)
    }

    pub fn ds_status(&self) -> (r: DSStatus)
        ensures
            r == DSStatus::from_bools(
                header::flag_bit(self@, 0x02),
                header::flag_bit(self@, 0x01),
            ),
    {
        proof {
            use_type_invariant(self);
        }
        let from_ds = header::get_flag(&self.bytes, 0x02);
        let to_ds = header::get_flag(&self.bytes, 0x01);
        DSStatus::from_bools(from_ds, to_ds)
    }

    pub fn more_fragments(&self) -> (r: bool)
        ensures
            r == header::flag_bit(self@, 0x04),
    {
        proof {
            use_type_invariant(self);
        }
        header::get_flag(&self.bytes, 0x04)
    }

    pub fn retry(&self) -> (r: bool)
        ensures
            r == header::flag_bit(self@, 0x08),
    {
        proof {
            use_type_invariant(self);
        }
        header::get_flag(&self.bytes, 0x08)
    }

    pub fn pwr_mgt(&self) -> (r: bool)
        ensures
            r == header::flag_bit(self@, 0x10),
    {
        proof {
            use_type_invariant(self);
        }
        header::get_flag(&self.bytes, 0x10)
    }

    pub fn more_data(&self) -> (r: bool)
        ensures
            r == header::flag_bit(self@, 0x20),
    {
        proof {
            use_type_invariant(self);
        }
        header::get_flag(&self.bytes, 0x20)
    }

    pub fn protected(&self) -> (r: bool)
        ensures
            r == header::flag_bit(self@, 0x40),
    {
        proof {
            use_type_invariant(self);
        }
        header::get_flag(&self.bytes, 0x40)
    }

    pub fn order(&self) -> (r: bool)
        ensures
            r == header::flag_bit(self@, 0x80),
    {
        proof {
            use_type_invariant(self);
        }
        header::get_flag(&self.bytes, 0x80)
    }

    /// Receiver Address
    /// Who this packet is destined for wirelessly.
    pub fn receiver_address(&self) -> (r: MacAddress)
        ensures
            r@ == header::addr_bits(self@, 4),
    {
        proof {
            use_type_invariant(self);
        }
        header::get_mac(&self.bytes, header::ADDR1_OFFSET)
    }

    /// Destination Address
    /// Who the packet is destined for: the receiver.
    pub fn destination_address(&self) -> (r: Option<MacAddress>)
        ensures
            r matches Some(m) && m@ == header::addr_bits(self@, 4),
    {
        Some(self.receiver_address())
    }

    /// Transmitter Address
    /// Who this packet came from wirelessly.
    pub fn transmitter_address(&self) -> (r: Option<MacAddress>)
        ensures
            r matches Some(m) && m@ == header::addr_bits(self@, 10),
    {
        proof {
            use_type_invariant(self);
        }
        Some(header::get_mac(&self.bytes, header::ADDR2_OFFSET))
    }

    /// Source Address
    /// Who the packet came from: the transmitter.
    pub fn source_address(&self) -> (r: Option<MacAddress>)
        ensures
            r matches Some(m) && m@ == header::addr_bits(self@, 10),
    {
        self.transmitter_address()
    }

    /// Basic Service Set Address (BSSID).
    pub fn bssid_address(&self) -> (r: Option<MacAddress>)
        ensures
            r matches Some(m) && m@ == header::addr_bits(self@, 16),
    {
        proof {
            use_type_invariant(self);
        }
        Some(header::get_mac(&self.bytes, header::ADDR3_OFFSET))
    }

    /// Fragment Number
    pub fn fragment_number(&self) -> (r: u8)
        ensures
            r == header::fragment_bits(self@),
    {
        proof {
            use_type_invariant(self);
        }
        header::get_fragment_number(&self.bytes)
    }

    /// Sequence Number
    pub fn sequence_number(&self) -> (r: u16)
        ensures
            r == header::sequence_bits(self@),
    {
        proof {
            use_type_invariant(self);
        }
        header::get_sequence_number(&self.bytes)
    }
}

} // verus!
