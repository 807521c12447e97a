//! The Control-frame view.
//!
//! Control frames carry at most two address slots.  The second slot exists
//! only for the subtypes that use it, so the constructor checks for it
//! exactly when one of those subtypes is announced in the header.

use vstd::prelude::*;

use crate::frame::TruncatedFrame;
use crate::header;
use crate::mac_address::MacAddress;

verus! {

/// The control subtype codes whose frames carry a second address slot:
/// BlockAckRequest, BlockAck, PSPoll, RTS, CFEnd and CFEndCFAck.
pub open spec fn control_has_addr2(c: u8) -> bool {
    c == 8 || c == 9 || c == 10 || c == 11 || c == 14 || c == 15
}

/// The control subtype codes whose transmitter is the second address slot:
/// BlockAckRequest, BlockAck, PSPoll and RTS.
pub open spec fn control_transmitter_is_addr2(c: u8) -> bool {
    c == 8 || c == 9 || c == 10 || c == 11
}

/// A buffer long enough for the control view: the fixed header always, and
/// the second address slot whenever the announced subtype uses one.
pub open spec fn control_frame_ok(b: Seq<u8>) -> bool {
    &&& b.len() >= 10
    &&& control_has_addr2(header::subtype_bits(b)) ==> b.len() >= 16
}

/// A read-only view over a Control frame.
pub struct ControlFrame {
    bytes: Vec<u8>,
}

impl View for ControlFrame {
    type V = Seq<u8>;

    closed spec fn view(&self) -> Seq<u8> {
        self.bytes@
    }
}

impl ControlFrame {
    #[verifier::type_invariant]
    spec fn wf(&self) -> bool {
        control_frame_ok(self.bytes@)
    }

    /// Wraps a buffer, refusing one too short for the announced subtype.
    pub fn new(bytes: Vec<u8>) -> (r: Result<ControlFrame, TruncatedFrame>)
        ensures
            match r {
                Ok(f) => control_frame_ok(bytes@) && f@ == bytes@,
                Err(e) => {
                    &&& !control_frame_ok(bytes@)
                    &&& e.required == if bytes@.len() < 10 {
                        10int
                    } else {
                        16int
                    }
                    &&& e.available == bytes@.len()
                },
            },
    {
        if bytes.len() < 10 {
            return Err(TruncatedFrame { required: 10, available: bytes.len() });
        }
        let c = (bytes[0] & 0xf0) >> 4;
        if (c == 8 || c == 9 || c == 10 || c == 11 || c == 14 || c == 15) && bytes.len() < 16 {
            return Err(TruncatedFrame { required: 16, available: bytes.len() });
        }
        Ok(ControlFrame { bytes })
    }

    pub fn addr1(&self) -> (r: MacAddress)
        ensures
            r@ == header::addr_bits(self@, 4),
    {
        proof {
            use_type_invariant(self);
        }
        header::get_mac(&self.bytes, header::ADDR1_OFFSET)
    }

    /// Receiver Address
    /// Who this packet is destined for wirelessly.
    pub fn receiver_address(&self) -> (r: MacAddress)
        ensures
            r@ == header::addr_bits(self@, 4),
    {
        self.addr1()
    }

    /// The second address slot; present only for the subtypes of
    /// `control_has_addr2`.
    pub fn addr2(&self) -> (r: MacAddress)
        requires
            control_has_addr2(header::subtype_bits(self@)),
        ensures
            r@ == header::addr_bits(self@, 10),
    {
        proof {
            use_type_invariant(self);
        }
        header::get_mac(&self.bytes, header::ADDR2_OFFSET)
    }

    /// Transmitter Address: the second slot for BlockAckRequest, BlockAck,
    /// PSPoll and RTS frames; absent for every other control subtype.
    pub fn transmitter_address(&self) -> (r: Option<MacAddress>)
        ensures
            control_transmitter_is_addr2(header::subtype_bits(self@)) ==> (r matches Some(m)
                && m@ == header::addr_bits(self@, 10)),
            !control_transmitter_is_addr2(header::subtype_bits(self@)) ==> r is None,
    {
        proof {
            use_type_invariant(self);
        }
        let c = (self.bytes[0] & 0xf0) >> 4;
        if c == 8 || c == 9 || c == 10 || c == 11 {
            Some(self.addr2())
        } else {
            None
        }
    }

    /// Control frames name no destination.
    pub fn destination_address(&self) -> (r: Option<MacAddress>)
        ensures
            r is None,
    {
        None
    }

    /// Control frames name no source.
    pub fn source_address(&self) -> (r: Option<MacAddress>)
        ensures
            r is None,
    {
        None
    }

    /// BSSID: the first slot for PSPoll, the second for CFEnd and
    /// CFEndCFAck, absent otherwise.
    pub fn bssid_address(&self) -> (r: Option<MacAddress>)
        ensures
            ({
                let c = header::subtype_bits(self@);
                &&& c == 10 ==> (r matches Some(m) && m@ == header::addr_bits(self@, 4))
                &&& (c == 14 || c == 15) ==> (r matches Some(m) && m@ == header::addr_bits(
                    self@,
                    10,
                ))
                &&& !(c == 10 || c == 14 || c == 15) ==> r is None
            }),
    {
        proof {
            use_type_invariant(self);
        }
        let c = (self.bytes[0] & 0xf0) >> 4;
        if c == 10 {
            Some(self.addr1())
        } else if c == 14 || c == 15 {
            Some(self.addr2())
        } else {
            None
        }
    }

    /// Control frames name no station.
    pub fn station_address(&self) -> (r: Option<MacAddress>)
        ensures
            r is None,
    {
        None
    }
}

} // verus!
