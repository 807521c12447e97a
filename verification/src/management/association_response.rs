//! The Association Response frame view: capabilities, status and
//! association identifier at 24, tagged parameters from 30.

use vstd::prelude::*;

use crate::frame::TruncatedFrame;
use crate::management::capabilities::{capabilities_at, spec_capabilities, CapabilitiesInfo};
use crate::types::StatusCode;
use crate::wire::{read_u16_at, u16_le};
use crate::management::tagged_parameters::{walk_from, walk_overflow_required, parse_tagged, OverflowError, TagName, TaggedParameters};

verus! {

/// A read-only view over an Association Response frame.
pub struct AssociationResponseFrame {
    bytes: Vec<u8>,
}

impl View for AssociationResponseFrame {
    type V = Seq<u8>;

    closed spec fn view(&self) -> Seq<u8> {
        self.bytes@
    }
}

impl AssociationResponseFrame {
    #[verifier::type_invariant]
    spec fn wf(&self) -> bool {
        self.bytes.len() >= 30
    }

    /// Wraps a buffer, refusing one shorter than this subtype's fixed
    /// parameters.
    pub fn new(bytes: Vec<u8>) -> (r: Result<AssociationResponseFrame, TruncatedFrame>)
        ensures
            match r {
                Ok(f) => bytes@.len() >= 30 && f@ == bytes@,
                Err(e) => {
                    &&& bytes@.len() < 30
                    &&& e.required == 30
                    &&& e.available == bytes@.len()
                },
            },
    {
        if bytes.len() < 30 {
            return Err(TruncatedFrame { required: 30, available: bytes.len() });
        }
        Ok(AssociationResponseFrame { bytes })
    }

    /// The Capabilities Information field.
    pub fn capabilities_info(&self) -> (r: CapabilitiesInfo)
        ensures
            r == spec_capabilities(self@[24], self@[25]),
    {
        proof {
            use_type_invariant(self);
        }
        capabilities_at(&self.bytes, 24)
    }

    /// Whether the association was granted.
    pub fn status_code(&self) -> (r: StatusCode)
        ensures
            r == StatusCode::from_u16(u16_le(self@, 26)),
    {
        proof {
            use_type_invariant(self);
        }
        StatusCode::from_u16(read_u16_at(&self.bytes, 26))
    }

    /// The association identifier granted to the station: the low fourteen
    /// bits of the field.
    pub fn association_id(&self) -> (r: u16)
        ensures
            r == u16_le(self@, 28) & 0x3fff,
    {
        proof {
            use_type_invariant(self);
        }
        read_u16_at(&self.bytes, 28) & 0x3fff
    }

    /// Walks the tagged-parameter region, which starts at byte 30.
    pub fn tagged_parameters(&self) -> (r: Result<TaggedParameters, OverflowError>)
        requires
            self@.len() + 260 <= usize::MAX,
        ensures
            match r {
                Ok(tp) => tp.wf() && walk_from(self@, 30, Map::empty()) == Some(tp@),
                Err(e) => {
                    &&& walk_from(self@, 30, Map::empty()) is None
                    &&& e.required == walk_overflow_required(self@, 30)
                    &&& e.available == self@.len()
                },
            },
    {
        proof {
            use_type_invariant(self);
        }
        parse_tagged(&self.bytes, 30)
    }

    /// The raw bytes of the SSID element, when the tagged-parameter region
    /// decodes and holds one.
    pub fn ssid(&self) -> (r: Option<Vec<u8>>)
        requires
            self@.len() + 260 <= usize::MAX,
        ensures
            match walk_from(self@, 30, Map::empty()) {
                Some(m) => if m.contains_key(TagName::SSID) {
                    r matches Some(v) && v@ == m[TagName::SSID]
                } else {
                    r is None
                },
                None => r is None,
            },
    {
        match self.tagged_parameters() {
            Ok(tp) => tp.ssid(),
            Err(_) => None,
        }
    }
}

} // verus!
