//! Builder for Data frames.

use vstd::prelude::*;

use crate::data::{data_frame_ok, data_payload_offset, spec_ds_status, DataFrame};
use crate::header;
use crate::mac_address::MacAddress;
use crate::types::{DSStatus, DurationID, FrameSubtype, FrameType, FrameVersion};
use crate::wire::{copy_bytes, zero_vec};

verus! {

/// `b` cut or zero-padded to length `n`.
pub open spec fn pad_to(b: Seq<u8>, n: int) -> Seq<u8> {
    if b.len() >= n {
        b.subrange(0, n)
    } else {
        b + Seq::new((n - b.len()) as nat, |i: int| 0u8)
    }
}

/// Builds a Data frame: an all-zero buffer marked as a Data frame, growable
/// by a payload.
pub struct DataFrameBuilder {
    bytes: Vec<u8>,
}

impl View for DataFrameBuilder {
    type V = Seq<u8>;

    closed spec fn view(&self) -> Seq<u8> {
        self.bytes@
    }
}

impl DataFrameBuilder {
    /// The builder's buffer keeps its fixed-field footprint.
    pub open spec fn wf(&self) -> bool {
        self@.len() >= 24
    }

    pub fn new() -> (r: DataFrameBuilder)
        ensures
            r@ == header::with_type(Seq::new(24, |i: int| 0u8), FrameType::Data.into_u8()),
    {
        let mut bytes = zero_vec(24);
        header::set_type(&mut bytes, FrameType::Data);
        DataFrameBuilder { bytes }
    }

    /// Finalizes the buffer into an immutable data view; the buffer must
    /// reach the fourth address slot when WDS/Mesh mode is set.
    pub fn build(&self) -> (r: DataFrame)
        requires
            data_frame_ok(self@),
        ensures
            r@ == self@,
    {
        DataFrame::new_checked(copy_bytes(&self.bytes))
    }

    pub fn version(&mut self, version: FrameVersion)
        requires
            old(self).wf(),
        ensures
            final(self)@ == header::with_version(old(self)@, version.into_u8()),
    {
        header::set_version(&mut self.bytes, version);
    }

    pub fn type_(&mut self, type_: FrameType)
        requires
            old(self).wf(),
        ensures
            final(self)@ == header::with_type(old(self)@, type_.into_u8()),
    {
        header::set_type(&mut self.bytes, type_);
    }

    pub fn subtype(&mut self, subtype: FrameSubtype)
        requires
            old(self).wf(),
        ensures
            final(self)@ == header::with_subtype(old(self)@, subtype.into_u8()),
    {
        header::set_subtype(&mut self.bytes, subtype);
    }

    pub fn to_ds(&mut self, to_ds: bool)
        requires
            old(self).wf(),
        ensures
            final(self)@ == header::with_flag(old(self)@, 0x01, to_ds),
    {
        header::set_flag(&mut self.bytes, 0x01, to_ds);
    }

    pub fn from_ds(&mut self, from_ds: bool)
        requires
            old(self).wf(),
        ensures
            final(self)@ == header::with_flag(old(self)@, 0x02, from_ds),
    {
        header::set_flag(&mut self.bytes, 0x02, from_ds);
    }

    pub fn ds_status(&mut self, ds_status: DSStatus)
        requires
            old(self).wf(),
        ensures
            final(self)@ == header::with_flag(
                header::with_flag(old(self)@, 0x02, ds_status.to_bools().0),
                0x01,
                ds_status.to_bools().1,
            ),
    {
        let (from_ds, to_ds) = ds_status.to_bools();
        self.from_ds(from_ds);
        self.to_ds(to_ds);
    }

    pub fn more_fragments(&mut self, more_fragments: bool)
        requires
            old(self).wf(),
        ensures
            final(self)@ == header::with_flag(old(self)@, 0x04, more_fragments),
    {
        header::set_flag(&mut self.bytes, 0x04, more_fragments);
    }

    pub fn retry(&mut self, retry: bool)
        requires
            old(self).wf(),
        ensures
            final(self)@ == header::with_flag(old(self)@, 0x08, retry),
    {
        header::set_flag(&mut self.bytes, 0x08, retry);
    }

    pub fn pwr_mgt(&mut self, pwr_mgt: bool)
        requires
            old(self).wf(),
        ensures
            final(self)@ == header::with_flag(old(self)@, 0x10, pwr_mgt),
    {
        header::set_flag(&mut self.bytes, 0x10, pwr_mgt);
    }

    pub fn more_data(&mut self, more_data: bool)
        requires
            old(self).wf(),
        ensures
            final(self)@ == header::with_flag(old(self)@, 0x20, more_data),
    {
        header::set_flag(&mut self.bytes, 0x20, more_data);
    }

    pub fn protected(&mut self, protected: bool)
        requires
            old(self).wf(),
        ensures
            final(self)@ == header::with_flag(old(self)@, 0x40, protected),
    {
        header::set_flag(&mut self.bytes, 0x40, protected);
    }

    pub fn order(&mut self, order: bool)
        requires
            old(self).wf(),
        ensures
            final(self)@ == header::with_flag(old(self)@, 0x80, order),
    {
        header::set_flag(&mut self.bytes, 0x80, order);
    }

    pub fn duration_or_id(&mut self, duration_or_id: DurationID)
        requires
            old(self).wf(),
        ensures
            final(self)@ == header::with_u16(old(self)@, 2, header::duration_code(duration_or_id)),
    {
        header::set_duration_or_id(&mut self.bytes, duration_or_id);
    }

    pub fn addr1(&mut self, mac_address: MacAddress)
        requires
            old(self).wf(),
        ensures
            final(self)@ == header::with_addr(old(self)@, 4, mac_address@),
    {
        header::set_mac(&mut self.bytes, header::ADDR1_OFFSET, mac_address);
    }

    /// Receiver Address
    /// Who this packet is destined for wirelessly.
    pub fn receiver_address(&mut self, mac_address: MacAddress)
        requires
            old(self).wf(),
        ensures
            final(self)@ == header::with_addr(old(self)@, 4, mac_address@),
    {
        self.addr1(mac_address)
    }


    /// Destination Address
    /// Who the packet is destined for: written to the slot that the current
    /// Distribution-System status gives that role.
    pub fn destination_address(&mut self, mac_address: MacAddress)
        requires
            old(self).wf(),
        ensures
            ({
                let ds = spec_ds_status(old(self)@);
                if ds == DSStatus::FromSTAToDS || ds == DSStatus::WDSOrMesh {
                    final(self)@ == header::with_addr(old(self)@, 16, mac_address@)
                } else {
                    final(self)@ == header::with_addr(old(self)@, 4, mac_address@)
                }
            }),
    {
        match self.ds_status_value() {
            DSStatus::FromDSToSTA => self.addr1(mac_address),
            DSStatus::FromSTAToDS | DSStatus::WDSOrMesh => self.addr3(mac_address),
            // fall back to receiver
            _ => self.receiver_address(mac_address),
        }
    }

    /// The Distribution-System status currently written in the buffer.
    fn ds_status_value(&self) -> (r: DSStatus)
        requires
            self.wf(),
        ensures
            r == spec_ds_status(self@),
    {
        let from_ds = header::get_flag(&self.bytes, 0x02);
        let to_ds = header::get_flag(&self.bytes, 0x01);
        DSStatus::from_bools(from_ds, to_ds)
    }

    pub fn addr2(&mut self, mac_address: MacAddress)
        requires
            old(self).wf(),
        ensures
            final(self)@ == header::with_addr(old(self)@, 10, mac_address@),
    {
        header::set_mac(&mut self.bytes, header::ADDR2_OFFSET, mac_address);
    }

    pub fn addr3(&mut self, mac_address: MacAddress)
        requires
            old(self).wf(),
        ensures
            final(self)@ == header::with_addr(old(self)@, 16, mac_address@),
    {
        header::set_mac(&mut self.bytes, header::ADDR3_OFFSET, mac_address);
    }

    /// The fourth address slot, present only when the buffer reaches past
    /// it (WDS/Mesh frames).
    pub fn addr4(&mut self, mac_address: MacAddress)
        requires
            old(self)@.len() >= 30,
        ensures
            final(self)@ == header::with_addr(old(self)@, 24, mac_address@),
    {
        header::set_mac(&mut self.bytes, header::ADDR4_OFFSET, mac_address);
    }

    /// Transmitter Address
    /// Who this packet came from wirelessly: the second slot.
    pub fn transmitter_address(&mut self, mac_address: MacAddress)
        requires
            old(self).wf(),
        ensures
            final(self)@ == header::with_addr(old(self)@, 10, mac_address@),
    {
        self.addr2(mac_address)
    }

    /// Source Address
    /// Who the packet came from: written to the slot that the current
    /// Distribution-System status gives that role.
    pub fn source_address(&mut self, mac_address: MacAddress)
        requires
            old(self).wf(),
            spec_ds_status(old(self)@) == DSStatus::WDSOrMesh ==> old(self)@.len() >= 30,
        ensures
            ({
                let ds = spec_ds_status(old(self)@);
                match ds {
                    DSStatus::FromDSToSTA => final(self)@ == header::with_addr(
                        old(self)@,
                        16,
                        mac_address@,
                    ),
                    DSStatus::FromSTAToDS => final(self)@ == header::with_addr(
                        old(self)@,
                        10,
                        mac_address@,
                    ),
                    DSStatus::WDSOrMesh => final(self)@ == header::with_addr(
                        old(self)@,
                        24,
                        mac_address@,
                    ),
                    DSStatus::NotLeavingDSOrADHOC => final(self)@ == header::with_addr(
                        old(self)@,
                        10,
                        mac_address@,
                    ),
                }
            }),
    {
        match self.ds_status_value() {
            DSStatus::FromDSToSTA => self.addr3(mac_address),
            DSStatus::FromSTAToDS => self.addr2(mac_address),
            DSStatus::WDSOrMesh => self.addr4(mac_address),
            // fall back to transmitter
            _ => self.transmitter_address(mac_address),
        }
    }

    /// BSSID: written to the slot that the current Distribution-System
    /// status gives that role; nothing in WDS/Mesh mode.
    pub fn bssid_address(&mut self, mac_address: MacAddress)
        requires
            old(self).wf(),
        ensures
            ({
                let ds = spec_ds_status(old(self)@);
                match ds {
                    DSStatus::FromDSToSTA => final(self)@ == header::with_addr(
                        old(self)@,
                        10,
                        mac_address@,
                    ),
                    DSStatus::FromSTAToDS => final(self)@ == header::with_addr(
                        old(self)@,
                        4,
                        mac_address@,
                    ),
                    DSStatus::NotLeavingDSOrADHOC => final(self)@ == header::with_addr(
                        old(self)@,
                        16,
                        mac_address@,
                    ),
                    DSStatus::WDSOrMesh => final(self)@ == old(self)@,
                }
            }),
    {
        match self.ds_status_value() {
            DSStatus::FromDSToSTA => self.addr2(mac_address),
            DSStatus::FromSTAToDS => self.addr1(mac_address),
            DSStatus::NotLeavingDSOrADHOC => self.addr3(mac_address),
            _ => {},
        }
    }

    /// Station Address: written to the slot that the current
    /// Distribution-System status gives that role; nothing otherwise.
    pub fn station_address(&mut self, mac_address: MacAddress)
        requires
            old(self).wf(),
        ensures
            ({
                let ds = spec_ds_status(old(self)@);
                match ds {
                    DSStatus::FromDSToSTA => final(self)@ == header::with_addr(
                        old(self)@,
                        4,
                        mac_address@,
                    ),
                    DSStatus::FromSTAToDS => final(self)@ == header::with_addr(
                        old(self)@,
                        10,
                        mac_address@,
                    ),
                    _ => final(self)@ == old(self)@,
                }
            }),
    {
        match self.ds_status_value() {
            DSStatus::FromDSToSTA => self.addr1(mac_address),
            DSStatus::FromSTAToDS => self.addr2(mac_address),
            _ => {},
        }
    }

    /// Replaces everything after the fixed fields with the payload of a
    /// plain Data or QoS Data frame, padding up to the payload offset with
    /// zeroes; the other data subtypes hold no payload and are left alone.
    pub fn next_layer(&mut self, data: &[u8])
        requires
            old(self).wf(),
            old(self)@.len() + data@.len() + 40 <= usize::MAX,
        ensures
            ({
                let c = header::subtype_bits(old(self)@);
                let idx = data_payload_offset(old(self)@);
                if c == 0 || c == 8 {
                    final(self)@ == pad_to(old(self)@, idx) + data@
                } else {
                    final(self)@ == old(self)@
                }
            }),
    {
        let c = (self.bytes[0] & 0xf0) >> 4;
        if c != 0 && c != 8 {
            // invalid type for holding data
            return ;
        }
        let mut index: usize = 24;
        if header::get_flag(&self.bytes, 0x40) {
            index = index + 8;  // skip TKIP/CCMP parameters
        }
        if c == 8 {
            index = index + 2;  // skip QoS Control
        }
        self.bytes.truncate(index);
        proof {
            assert(self.bytes@ =~= pad_to(old(self)@, data_payload_offset(old(self)@)).subrange(
                0,
                self.bytes@.len() as int,
            ));
        }
        while self.bytes.len() < index
            invariant
                self.bytes@ == pad_to(old(self)@, data_payload_offset(old(self)@)).subrange(
                    0,
                    self.bytes@.len() as int,
                ),
                index == data_payload_offset(old(self)@),
                24 <= index,
                self.bytes@.len() <= index,
                self.bytes@.len() >= old(self)@.len() || self.bytes@.len() >= index,
            decreases index - self.bytes.len(),
        {
            self.bytes.push(0);
            proof {
                assert(self.bytes@ =~= pad_to(old(self)@, data_payload_offset(old(self)@)).subrange(
                    0,
                    self.bytes@.len() as int,
                ));
            }
        }
        proof {
            assert(self.bytes@ =~= pad_to(old(self)@, data_payload_offset(old(self)@)));
        }
        let ghost padded = self.bytes@;
        let mut k: usize = 0;
        while k < data.len()
            invariant
                k <= data@.len(),
                self.bytes@ == padded + data@.subrange(0, k as int),
            decreases data.len() - k,
        {
            self.bytes.push(data[k]);
            proof {
                assert(self.bytes@ =~= padded + data@.subrange(0, k + 1));
            }
            k = k + 1;
        }
        proof {
            assert(self.bytes@ =~= padded + data@);
        }
    }
    /// Fragment Number
    pub fn fragment_number(&mut self, fragment_number: u8)
        requires
            old(self).wf(),
        ensures
            final(self)@ == header::with_fragment(old(self)@, fragment_number),
    {
        header::set_fragment_number(&mut self.bytes, fragment_number);
    }

    /// Sequence Number
    pub fn sequence_number(&mut self, sequence_number: u16)
        requires
            old(self).wf(),
        ensures
            final(self)@ == header::with_sequence(old(self)@, sequence_number),
    {
        header::set_sequence_number(&mut self.bytes, sequence_number);
    }

}

} // verus!
