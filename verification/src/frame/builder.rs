//! Builder for the 10-byte fixed header.
//!
//! Every setter is a read-modify-write of the bits of its own field, so
//! setters may be called in any order; the round-trip lemmas in
//! [`crate::header`] prove that each written field decodes back to the
//! value that was set and leaves the other fields alone.

use vstd::prelude::*;

use crate::frame::Frame;
use crate::header;
use crate::mac_address::MacAddress;
use crate::types::{DSStatus, DurationID, FrameSubtype, FrameType, FrameVersion};
use crate::wire::{copy_bytes, zero_vec};

verus! {

/// Builds the generic fixed header, starting from an all-zero buffer with
/// the standard protocol version.
pub struct FrameBuilder {
    bytes: Vec<u8>,
}

impl View for FrameBuilder {
    type V = Seq<u8>;

    closed spec fn view(&self) -> Seq<u8> {
        self.bytes@
    }
}

impl FrameBuilder {
    /// The builder's buffer keeps its fixed-field footprint.
    pub open spec fn wf(&self) -> bool {
        self@.len() == 10
    }

    pub fn new() -> (r: FrameBuilder)
        ensures
            r@ == header::with_version(Seq::new(10, |i: int| 0u8), 0),
    {
        let mut bytes = zero_vec(10);
        header::set_version(&mut bytes, FrameVersion::Standard);
        FrameBuilder { bytes }
    }

    /// Finalizes the buffer into an immutable frame view.
    pub fn build(&self) -> (r: Frame)
        requires
            self.wf(),
        ensures
            r@ == self@,
    {
        Frame::new_checked(copy_bytes(&self.bytes))
    }

    pub fn version(&mut self, version: FrameVersion)
        requires
            old(self).wf(),
        ensures
            final(self)@ == header::with_version(old(self)@, version.into_u8()),
    {
        header::set_version(&mut self.bytes, version);
    }

    pub fn type_(&mut self, type_: FrameType)
        requires
            old(self).wf(),
        ensures
            final(self)@ == header::with_type(old(self)@, type_.into_u8()),
    {
        header::set_type(&mut self.bytes, type_);
    }

    pub fn subtype(&mut self, subtype: FrameSubtype)
        requires
            old(self).wf(),
        ensures
            final(self)@ == header::with_subtype(old(self)@, subtype.into_u8()),
    {
        header::set_subtype(&mut self.bytes, subtype);
    }

    pub fn to_ds(&mut self, to_ds: bool)
        requires
            old(self).wf(),
        ensures
            final(self)@ == header::with_flag(old(self)@, 0x01, to_ds),
    {
        header::set_flag(&mut self.bytes, 0x01, to_ds);
    }

    pub fn from_ds(&mut self, from_ds: bool)
        requires
            old(self).wf(),
        ensures
            final(self)@ == header::with_flag(old(self)@, 0x02, from_ds),
    {
        header::set_flag(&mut self.bytes, 0x02, from_ds);
    }

    pub fn ds_status(&mut self, ds_status: DSStatus)
        requires
            old(self).wf(),
        ensures
            final(self)@ == header::with_flag(
                header::with_flag(old(self)@, 0x02, ds_status.to_bools().0),
                0x01,
                ds_status.to_bools().1,
            ),
    {
        let (from_ds, to_ds) = ds_status.to_bools();
        self.from_ds(from_ds);
        self.to_ds(to_ds);
    }

    pub fn more_fragments(&mut self, more_fragments: bool)
        requires
            old(self).wf(),
        ensures
            final(self)@ == header::with_flag(old(self)@, 0x04, more_fragments),
    {
        header::set_flag(&mut self.bytes, 0x04, more_fragments);
    }

    pub fn retry(&mut self, retry: bool)
        requires
            old(self).wf(),
        ensures
            final(self)@ == header::with_flag(old(self)@, 0x08, retry),
    {
        header::set_flag(&mut self.bytes, 0x08, retry);
    }

    pub fn pwr_mgt(&mut self, pwr_mgt: bool)
        requires
            old(self).wf(),
        ensures
            final(self)@ == header::with_flag(old(self)@, 0x10, pwr_mgt),
    {
        header::set_flag(&mut self.bytes, 0x10, pwr_mgt);
    }

    pub fn more_data(&mut self, more_data: bool)
        requires
            old(self).wf(),
        ensures
            final(self)@ == header::with_flag(old(self)@, 0x20, more_data),
    {
        header::set_flag(&mut self.bytes, 0x20, more_data);
    }

    pub fn protected(&mut self, protected: bool)
        requires
            old(self).wf(),
        ensures
            final(self)@ == header::with_flag(old(self)@, 0x40, protected),
    {
        header::set_flag(&mut self.bytes, 0x40, protected);
    }

    pub fn order(&mut self, order: bool)
        requires
            old(self).wf(),
        ensures
            final(self)@ == header::with_flag(old(self)@, 0x80, order),
    {
        header::set_flag(&mut self.bytes, 0x80, order);
    }

    pub fn duration_or_id(&mut self, duration_or_id: DurationID)
        requires
            old(self).wf(),
        ensures
            final(self)@ == header::with_u16(old(self)@, 2, header::duration_code(duration_or_id)),
    {
        header::set_duration_or_id(&mut self.bytes, duration_or_id);
    }

    pub fn addr1(&mut self, mac_address: MacAddress)
        requires
            old(self).wf(),
        ensures
            final(self)@ == header::with_addr(old(self)@, 4, mac_address@),
    {
        header::set_mac(&mut self.bytes, header::ADDR1_OFFSET, mac_address);
    }

    /// Receiver Address
    /// Who this packet is destined for wirelessly.
    /// Address 1
    pub fn receiver_address(&mut self, mac_address: MacAddress)
        requires
            old(self).wf(),
        ensures
            final(self)@ == header::with_addr(old(self)@, 4, mac_address@),
    {
        self.addr1(mac_address)
    }

    /// Destination Address
    /// Who the packet is destined for.
    pub fn destination_address(&mut self, mac_address: MacAddress)
        requires
            old(self).wf(),
        ensures
            final(self)@ == header::with_addr(old(self)@, 4, mac_address@),
    {
        self.receiver_address(mac_address)
    }
}

} // verus!
