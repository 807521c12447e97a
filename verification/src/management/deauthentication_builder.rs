//! Builder for Deauthentication frames.

use vstd::prelude::*;

use crate::header;
use crate::mac_address::MacAddress;
use crate::management::DeauthenticationFrame;
use crate::types::{
    DSStatus, DurationID, FrameSubtype, FrameType, FrameVersion, ManagementSubtype, ReasonCode,
};
use crate::wire::{copy_bytes, zero_vec};

verus! {

/// Builds a Deauthentication frame: an all-zero buffer marked with the subtype, with
/// a default reason code.
pub struct DeauthenticationFrameBuilder {
    bytes: Vec<u8>,
}

impl View for DeauthenticationFrameBuilder {
    type V = Seq<u8>;

    closed spec fn view(&self) -> Seq<u8> {
        self.bytes@
    }
}

impl DeauthenticationFrameBuilder {
    /// The builder's buffer keeps its fixed-field footprint.
    pub open spec fn wf(&self) -> bool {
        self@.len() == 30
    }

    pub fn new() -> (r: DeauthenticationFrameBuilder)
        ensures
            r@ == header::with_u16(
                header::with_subtype(
                    header::with_type(Seq::new(30, |i: int| 0u8), FrameType::Management.into_u8()),
                    FrameSubtype::Management(ManagementSubtype::Deauthentication).into_u8(),
                ),
                24,
                ReasonCode::STALeavingIBSSOrESS.into_u16(),
            ),
    {
        let mut bytes = zero_vec(30);
        header::set_type(&mut bytes, FrameType::Management);
        header::set_subtype(&mut bytes, FrameSubtype::Management(ManagementSubtype::Deauthentication));
        crate::wire::write_u16_at(&mut bytes, 24, ReasonCode::STALeavingIBSSOrESS.into_u16());
        DeauthenticationFrameBuilder { bytes }
    }

    /// Finalizes the buffer into an immutable Deauthentication view.
    pub fn build(&self) -> (r: DeauthenticationFrame)
        requires
            self.wf(),
        ensures
            r@ == self@,
    {
        DeauthenticationFrame::new_checked(copy_bytes(&self.bytes))
    }

    pub fn version(&mut self, version: FrameVersion)
        requires
            old(self).wf(),
        ensures
            final(self)@ == header::with_version(old(self)@, version.into_u8()),
    {
        header::set_version(&mut self.bytes, version);
    }

    pub fn type_(&mut self, type_: FrameType)
        requires
            old(self).wf(),
        ensures
            final(self)@ == header::with_type(old(self)@, type_.into_u8()),
    {
        header::set_type(&mut self.bytes, type_);
    }

    pub fn subtype(&mut self, subtype: FrameSubtype)
        requires
            old(self).wf(),
        ensures
            final(self)@ == header::with_subtype(old(self)@, subtype.into_u8()),
    {
        header::set_subtype(&mut self.bytes, subtype);
    }

    pub fn to_ds(&mut self, to_ds: bool)
        requires
            old(self).wf(),
        ensures
            final(self)@ == header::with_flag(old(self)@, 0x01, to_ds),
    {
        header::set_flag(&mut self.bytes, 0x01, to_ds);
    }

    pub fn from_ds(&mut self, from_ds: bool)
        requires
            old(self).wf(),
        ensures
            final(self)@ == header::with_flag(old(self)@, 0x02, from_ds),
    {
        header::set_flag(&mut self.bytes, 0x02, from_ds);
    }

    pub fn ds_status(&mut self, ds_status: DSStatus)
        requires
            old(self).wf(),
        ensures
            final(self)@ == header::with_flag(
                header::with_flag(old(self)@, 0x02, ds_status.to_bools().0),
                0x01,
                ds_status.to_bools().1,
            ),
    {
        let (from_ds, to_ds) = ds_status.to_bools();
        self.from_ds(from_ds);
        self.to_ds(to_ds);
    }

    pub fn more_fragments(&mut self, more_fragments: bool)
        requires
            old(self).wf(),
        ensures
            final(self)@ == header::with_flag(old(self)@, 0x04, more_fragments),
    {
        header::set_flag(&mut self.bytes, 0x04, more_fragments);
    }

    pub fn retry(&mut self, retry: bool)
        requires
            old(self).wf(),
        ensures
            final(self)@ == header::with_flag(old(self)@, 0x08, retry),
    {
        header::set_flag(&mut self.bytes, 0x08, retry);
    }

    pub fn pwr_mgt(&mut self, pwr_mgt: bool)
        requires
            old(self).wf(),
        ensures
            final(self)@ == header::with_flag(old(self)@, 0x10, pwr_mgt),
    {
        header::set_flag(&mut self.bytes, 0x10, pwr_mgt);
    }

    pub fn more_data(&mut self, more_data: bool)
        requires
            old(self).wf(),
        ensures
            final(self)@ == header::with_flag(old(self)@, 0x20, more_data),
    {
        header::set_flag(&mut self.bytes, 0x20, more_data);
    }

    pub fn protected(&mut self, protected: bool)
        requires
            old(self).wf(),
        ensures
            final(self)@ == header::with_flag(old(self)@, 0x40, protected),
    {
        header::set_flag(&mut self.bytes, 0x40, protected);
    }

    pub fn order(&mut self, order: bool)
        requires
            old(self).wf(),
        ensures
            final(self)@ == header::with_flag(old(self)@, 0x80, order),
    {
        header::set_flag(&mut self.bytes, 0x80, order);
    }

    pub fn duration_or_id(&mut self, duration_or_id: DurationID)
        requires
            old(self).wf(),
        ensures
            final(self)@ == header::with_u16(old(self)@, 2, header::duration_code(duration_or_id)),
    {
        header::set_duration_or_id(&mut self.bytes, duration_or_id);
    }

    pub fn addr1(&mut self, mac_address: MacAddress)
        requires
            old(self).wf(),
        ensures
            final(self)@ == header::with_addr(old(self)@, 4, mac_address@),
    {
        header::set_mac(&mut self.bytes, header::ADDR1_OFFSET, mac_address);
    }

    /// Receiver Address
    /// Who this packet is destined for wirelessly.
    pub fn receiver_address(&mut self, mac_address: MacAddress)
        requires
            old(self).wf(),
        ensures
            final(self)@ == header::with_addr(old(self)@, 4, mac_address@),
    {
        self.addr1(mac_address)
    }

    /// Destination Address
    /// Who the packet is destined for.
    pub fn destination_address(&mut self, mac_address: MacAddress)
        requires
            old(self).wf(),
        ensures
            final(self)@ == header::with_addr(old(self)@, 4, mac_address@),
    {
        self.receiver_address(mac_address)
    }

    /// Fragment Number
    pub fn fragment_number(&mut self, fragment_number: u8)
        requires
            old(self).wf(),
        ensures
            final(self)@ == header::with_fragment(old(self)@, fragment_number),
    {
        header::set_fragment_number(&mut self.bytes, fragment_number);
    }

    /// Sequence Number
    pub fn sequence_number(&mut self, sequence_number: u16)
        requires
            old(self).wf(),
        ensures
            final(self)@ == header::with_sequence(old(self)@, sequence_number),
    {
        header::set_sequence_number(&mut self.bytes, sequence_number);
    }

    pub fn addr2(&mut self, mac_address: MacAddress)
        requires
            old(self).wf(),
        ensures
            final(self)@ == header::with_addr(old(self)@, 10, mac_address@),
    {
        header::set_mac(&mut self.bytes, header::ADDR2_OFFSET, mac_address);
    }

    pub fn addr3(&mut self, mac_address: MacAddress)
        requires
            old(self).wf(),
        ensures
            final(self)@ == header::with_addr(old(self)@, 16, mac_address@),
    {
        header::set_mac(&mut self.bytes, header::ADDR3_OFFSET, mac_address);
    }

    /// Transmitter Address
    /// Who this packet came from wirelessly.
    pub fn transmitter_address(&mut self, mac_address: MacAddress)
        requires
            old(self).wf(),
        ensures
            final(self)@ == header::with_addr(old(self)@, 10, mac_address@),
    {
        self.addr2(mac_address)
    }

    /// Source Address
    /// Who the packet came from.
    pub fn source_address(&mut self, mac_address: MacAddress)
        requires
            old(self).wf(),
        ensures
            final(self)@ == header::with_addr(old(self)@, 10, mac_address@),
    {
        self.transmitter_address(mac_address)
    }

    pub fn bssid_address(&mut self, mac_address: MacAddress)
        requires
            old(self).wf(),
        ensures
            final(self)@ == header::with_addr(old(self)@, 16, mac_address@),
    {
        self.addr3(mac_address)
    }

    /// Management frames name no station: setting one changes nothing.
    pub fn station_address(&mut self, _mac_address: MacAddress)
        requires
            old(self).wf(),
        ensures
            final(self)@ == old(self)@,
    {
        // noop
    }

    /// Why the sender is tearing the association or authentication down.
    pub fn reason_code(&mut self, reason_code: ReasonCode)
        requires
            old(self).wf(),
        ensures
            final(self)@ == header::with_u16(old(self)@, 24, reason_code.into_u16()),
    {
        crate::wire::write_u16_at(&mut self.bytes, 24, reason_code.into_u16());
    }
}

} // verus!
