//! The Data-frame view.
//!
//! Data frames carry three address slots, the fragment/sequence field and,
//! in WDS/Mesh mode only, a fourth address slot after it.  Which slot plays
//! which semantic role depends on the frame's Distribution-System status.

mod builder;

pub use builder::DataFrameBuilder;

use vstd::prelude::*;

use crate::frame::TruncatedFrame;
use crate::header;
use crate::mac_address::MacAddress;
use crate::types::{DSStatus, DurationID, FrameSubtype, FrameType, FrameVersion};
use crate::wire::copy_bytes_from;

verus! {

/// The Distribution-System status announced by a frame's flag bits.
pub open spec fn spec_ds_status(b: Seq<u8>) -> DSStatus {
    DSStatus::from_bools(header::flag_bit(b, 0x02), header::flag_bit(b, 0x01))
}

/// A buffer long enough for the data view: the three fixed address slots
/// and the fragment/sequence field always, and the fourth address slot in
/// WDS/Mesh mode.
pub open spec fn data_frame_ok(b: Seq<u8>) -> bool {
    &&& b.len() >= 24
    &&& spec_ds_status(b) == DSStatus::WDSOrMesh ==> b.len() >= 30
}

/// Where the payload of a plain Data or QoS Data frame starts: after the
/// fragment/sequence field, the TKIP/CCMP parameters of a protected frame,
/// and the QoS Control field of a QoS Data frame.
pub open spec fn data_payload_offset(b: Seq<u8>) -> int {
    24 + (if header::flag_bit(b, 0x40) {
        8int
    } else {
        0int
    }) + (if header::subtype_bits(b) == 8 {
        2int
    } else {
        0int
    })
}

/// A read-only view over a Data frame.
pub struct DataFrame {
    bytes: Vec<u8>,
}

impl View for DataFrame {
    type V = Seq<u8>;

    closed spec fn view(&self) -> Seq<u8> {
        self.bytes@
    }
}

impl DataFrame {
    #[verifier::type_invariant]
    spec fn wf(&self) -> bool {
        data_frame_ok(self.bytes@)
    }

    /// Wraps a buffer already known to hold the data fixed fields.
    pub(crate) fn new_checked(bytes: Vec<u8>) -> (r: DataFrame)
        requires
            data_frame_ok(bytes@),
        ensures
            r@ == bytes@,
    {
        DataFrame { bytes }
    }

    /// Wraps a buffer, refusing one too short for the announced mode.
    pub fn new(bytes: Vec<u8>) -> (r: Result<DataFrame, TruncatedFrame>)
        ensures
            match r {
                Ok(f) => data_frame_ok(bytes@) && f@ == bytes@,
                Err(e) => {
                    &&& !data_frame_ok(bytes@)
                    &&& e.required == if bytes@.len() < 24 {
                        24int
                    } else {
                        30int
                    }
                    &&& e.available == bytes@.len()
                },
            },
    {
        if bytes.len() < 24 {
            return Err(TruncatedFrame { required: 24, available: bytes.len() });
        }
        let from_ds = bytes[1] & 0x02 != 0;
        let to_ds = bytes[1] & 0x01 != 0;
        if from_ds && to_ds && bytes.len() < 30 {
            return Err(TruncatedFrame { required: 30, available: bytes.len() });
        }
        Ok(DataFrame { bytes })
    }

    pub fn ds_status(&self) -> (r: DSStatus)
        ensures
            r == spec_ds_status(self@),
    {
        proof {
            use_type_invariant(self);
        }
        let from_ds = header::get_flag(&self.bytes, 0x02);
        let to_ds = header::get_flag(&self.bytes, 0x01);
        DSStatus::from_bools(from_ds, to_ds)
    }

    /// 0: Data is not protected
    /// 1: Data is protected
    pub fn protected(&self) -> (r: bool)
        ensures
            r == header::flag_bit(self@, 0x40),
    {
        proof {
            use_type_invariant(self);
        }
        header::get_flag(&self.bytes, 0x40)
    }


    pub fn version(&self) -> (r: FrameVersion)
        ensures
            r == FrameVersion::from_u8(header::version_bits(self@)),
    {
        proof {
            use_type_invariant(self);
        }
        header::get_version(&self.bytes)
    }

    pub fn type_(&self) -> (r: FrameType)
        ensures
            r == FrameType::from_u8(header::type_bits(self@)),
    {
        proof {
            use_type_invariant(self);
        }
        header::get_type(&self.bytes)
    }

    pub fn subtype(&self) -> (r: FrameSubtype)
        ensures
            r == FrameSubtype::from_u8(
                FrameType::from_u8(header::type_bits(self@)),
                header::subtype_bits(self@),
            ),
    {
        proof {
            use_type_invariant(self);
        }
        header::get_subtype(&self.bytes)
    }

    pub fn more_fragments(&self) -> (r: bool)
        ensures
            r == header::flag_bit(self@, 0x04),
    {
        proof {
            use_type_invariant(self);
        }
        header::get_flag(&self.bytes, 0x04)
    }

    pub fn retry(&self) -> (r: bool)
        ensures
            r == header::flag_bit(self@, 0x08),
    {
        proof {
            use_type_invariant(self);
        }
        header::get_flag(&self.bytes, 0x08)
    }

    pub fn pwr_mgt(&self) -> (r: bool)
        ensures
            r == header::flag_bit(self@, 0x10),
    {
        proof {
            use_type_invariant(self);
        }
        header::get_flag(&self.bytes, 0x10)
    }

    pub fn more_data(&self) -> (r: bool)
        ensures
            r == header::flag_bit(self@, 0x20),
    {
        proof {
            use_type_invariant(self);
        }
        header::get_flag(&self.bytes, 0x20)
    }

    pub fn order(&self) -> (r: bool)
        ensures
            r == header::flag_bit(self@, 0x80),
    {
        proof {
            use_type_invariant(self);
        }
        header::get_flag(&self.bytes, 0x80)
    }

    /// Duration or Association Identifier
    pub fn duration_or_id(&self) -> (r: DurationID)
        ensures
            r == header::spec_duration_or_id(self@),
    {
        proof {
            use_type_invariant(self);
        }
        header::get_duration_or_id(&self.bytes)
    }

    pub fn addr1(&self) -> (r: MacAddress)
        ensures
            r@ == header::addr_bits(self@, 4),
    {
        proof {
            use_type_invariant(self);
        }
        header::get_mac(&self.bytes, header::ADDR1_OFFSET)
    }

    pub fn addr2(&self) -> (r: MacAddress)
        ensures
            r@ == header::addr_bits(self@, 10),
    {
        proof {
            use_type_invariant(self);
        }
        header::get_mac(&self.bytes, header::ADDR2_OFFSET)
    }

    pub fn addr3(&self) -> (r: MacAddress)
        ensures
            r@ == header::addr_bits(self@, 16),
    {
        proof {
            use_type_invariant(self);
        }
        header::get_mac(&self.bytes, header::ADDR3_OFFSET)
    }

    /// The fourth address slot, present only in WDS/Mesh mode, after the
    /// fragment/sequence field.
    pub fn addr4(&self) -> (r: MacAddress)
        requires
            spec_ds_status(self@) == DSStatus::WDSOrMesh,
        ensures
            r@ == header::addr_bits(self@, 24),
    {
        proof {
            use_type_invariant(self);
        }
        header::get_mac(&self.bytes, header::ADDR4_OFFSET)
    }

    /// Receiver Address
    /// Who this packet is destined for wirelessly.
    pub fn receiver_address(&self) -> (r: MacAddress)
        ensures
            r@ == header::addr_bits(self@, 4),
    {
        self.addr1()
    }

    /// Transmitter Address
    /// Who this packet came from wirelessly: always the second slot.
    pub fn transmitter_address(&self) -> (r: Option<MacAddress>)
        ensures
            r matches Some(m) && m@ == header::addr_bits(self@, 10),
    {
        Some(self.addr2())
    }

    /// Destination Address
    /// Who the packet is destined for: the third slot when the frame heads
    /// into the Distribution System or travels between APs, the receiver
    /// otherwise.
    pub fn destination_address(&self) -> (r: Option<MacAddress>)
        ensures
            ({
                let ds = spec_ds_status(self@);
                if ds == DSStatus::FromSTAToDS || ds == DSStatus::WDSOrMesh {
                    r matches Some(m) && m@ == header::addr_bits(self@, 16)
                } else {
                    r matches Some(m) && m@ == header::addr_bits(self@, 4)
                }
            }),
    {
        match self.ds_status() {
            DSStatus::FromDSToSTA => Some(self.addr1()),
            DSStatus::FromSTAToDS => Some(self.addr3()),
            DSStatus::WDSOrMesh => Some(self.addr3()),
            // fall back to receiver
            _ => Some(self.receiver_address()),
        }
    }

    /// Source Address
    /// Who the packet came from: per the Distribution-System status, with
    /// the transmitter as the fallback.
    pub fn source_address(&self) -> (r: Option<MacAddress>)
        ensures
            ({
                let ds = spec_ds_status(self@);
                match ds {
                    DSStatus::FromDSToSTA => r matches Some(m) && m@ == header::addr_bits(
                        self@,
                        16,
                    ),
                    DSStatus::FromSTAToDS => r matches Some(m) && m@ == header::addr_bits(
                        self@,
                        10,
                    ),
                    DSStatus::WDSOrMesh => r matches Some(m) && m@ == header::addr_bits(self@, 24),
                    DSStatus::NotLeavingDSOrADHOC => r matches Some(m) && m@ == header::addr_bits(
                        self@,
                        10,
                    ),
                }
            }),
    {
        match self.ds_status() {
            DSStatus::FromDSToSTA => Some(self.addr3()),
            DSStatus::FromSTAToDS => Some(self.addr2()),
            DSStatus::WDSOrMesh => Some(self.addr4()),
            // fall back to transmitter
            _ => self.transmitter_address(),
        }
    }

    /// BSSID: per the Distribution-System status; absent in WDS/Mesh mode.
    pub fn bssid_address(&self) -> (r: Option<MacAddress>)
        ensures
            ({
                let ds = spec_ds_status(self@);
                match ds {
                    DSStatus::FromDSToSTA => r matches Some(m) && m@ == header::addr_bits(
                        self@,
                        10,
                    ),
                    DSStatus::FromSTAToDS => r matches Some(m) && m@ == header::addr_bits(
                        self@,
                        4,
                    ),
                    DSStatus::NotLeavingDSOrADHOC => r matches Some(m) && m@ == header::addr_bits(
                        self@,
                        16,
                    ),
                    DSStatus::WDSOrMesh => r is None,
                }
            }),
    {
        match self.ds_status() {
            DSStatus::FromDSToSTA => Some(self.addr2()),
            DSStatus::FromSTAToDS => Some(self.addr1()),
            DSStatus::NotLeavingDSOrADHOC => Some(self.addr3()),
            _ => None,
        }
    }

    /// Station Address: the receiver when the frame leaves the Distribution
    /// System, the transmitter when it enters it, absent otherwise.
    pub fn station_address(&self) -> (r: Option<MacAddress>)
        ensures
            ({
                let ds = spec_ds_status(self@);
                match ds {
                    DSStatus::FromDSToSTA => r matches Some(m) && m@ == header::addr_bits(
                        self@,
                        4,
                    ),
                    DSStatus::FromSTAToDS => r matches Some(m) && m@ == header::addr_bits(
                        self@,
                        10,
                    ),
                    _ => r is None,
                }
            }),
    {
        match self.ds_status() {
            DSStatus::FromDSToSTA => Some(self.addr1()),
            DSStatus::FromSTAToDS => Some(self.addr2()),
            _ => None,
        }
    }

    /// Fragment Number
    pub fn fragment_number(&self) -> (r: u8)
        ensures
            r == header::fragment_bits(self@),
    {
        proof {
            use_type_invariant(self);
        }
        header::get_fragment_number(&self.bytes)
    }

    /// Sequence Number
    pub fn sequence_number(&self) -> (r: u16)
        ensures
            r == header::sequence_bits(self@),
    {
        proof {
            use_type_invariant(self);
        }
        header::get_sequence_number(&self.bytes)
    }

    /// The payload of a plain Data or QoS Data frame; absent for the other
    /// data subtypes and for a buffer that ends before the payload starts.
    pub fn next_layer(&self) -> (r: Option<Vec<u8>>)
        ensures
            ({
                let c = header::subtype_bits(self@);
                let start = data_payload_offset(self@);
                if (c == 0 || c == 8) && start <= self@.len() {
                    r matches Some(p) && p@ == self@.subrange(start, self@.len() as int)
                } else {
                    r is None
                }
            }),
    {
        proof {
            use_type_invariant(self);
        }
        let c = (self.bytes[0] & 0xf0) >> 4;
        if c != 0 && c != 8 {
            return None;
        }
        let mut index: usize = 24;
        if self.protected() {
            index = index + 8;  // skip TKIP/CCMP parameters
        }
        if c == 8 {
            index = index + 2;  // skip QoS Control
        }
        if index > self.bytes.len() {
            return None;
        }
        Some(copy_bytes_from(&self.bytes, index))
    }
}

} // verus!
