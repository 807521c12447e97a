//! The Association Request frame view: capabilities and listen
//! interval at 24, tagged parameters from 28.

use vstd::prelude::*;

use crate::frame::TruncatedFrame;
use crate::management::capabilities::{capabilities_at, spec_capabilities, CapabilitiesInfo};
use crate::wire::{read_u16_at, u16_le};
use crate::management::tagged_parameters::{walk_from, walk_overflow_required, parse_tagged, OverflowError, TagName, TaggedParameters};

verus! {

/// A read-only view over an Association Request frame.
pub struct AssociationRequestFrame {
    bytes: Vec<u8>,
}

impl View for AssociationRequestFrame {
    type V = Seq<u8>;

    closed spec fn view(&self) -> Seq<u8> {
        self.bytes@
    }
}

impl AssociationRequestFrame {
    #[verifier::type_invariant]
    spec fn wf(&self) -> bool {
        self.bytes.len() >= 28
    }

    /// Wraps a buffer, refusing one shorter than this subtype's fixed
    /// parameters.
    pub fn new(bytes: Vec<u8>) -> (r: Result<AssociationRequestFrame, TruncatedFrame>)
        ensures
            match r {
                Ok(f) => bytes@.len() >= 28 && f@ == bytes@,
                Err(e) => {
                    &&& bytes@.len() < 28
                    &&& e.required == 28
                    &&& e.available == bytes@.len()
                },
            },
    {
        if bytes.len() < 28 {
            return Err(TruncatedFrame { required: 28, available: bytes.len() });
        }
        Ok(AssociationRequestFrame { bytes })
    }

    /// The Capabilities Information field.
    pub fn capabilities_info(&self) -> (r: CapabilitiesInfo)
        ensures
            r == spec_capabilities(self@[24], self@[25]),
    {
        proof {
            use_type_invariant(self);
        }
        capabilities_at(&self.bytes, 24)
    }

    /// How many beacon intervals the station may sleep between listening.
    pub fn listen_interval(&self) -> (r: u16)
        ensures
            r == u16_le(self@, 26),
    {
        proof {
            use_type_invariant(self);
        }
        read_u16_at(&self.bytes, 26)
    }

    /// Walks the tagged-parameter region, which starts at byte 28.
    pub fn tagged_parameters(&self) -> (r: Result<TaggedParameters, OverflowError>)
        requires
            self@.len() + 260 <= usize::MAX,
        ensures
            match r {
                Ok(tp) => tp.wf() && walk_from(self@, 28, Map::empty()) == Some(tp@),
                Err(e) => {
                    &&& walk_from(self@, 28, Map::empty()) is None
                    &&& e.required == walk_overflow_required(self@, 28)
                    &&& e.available == self@.len()
                },
            },
    {
        proof {
            use_type_invariant(self);
        }
        parse_tagged(&self.bytes, 28)
    }

    /// The raw bytes of the SSID element, when the tagged-parameter region
    /// decodes and holds one.
    pub fn ssid(&self) -> (r: Option<Vec<u8>>)
        requires
            self@.len() + 260 <= usize::MAX,
        ensures
            match walk_from(self@, 28, Map::empty()) {
                Some(m) => if m.contains_key(TagName::SSID) {
                    r matches Some(v) && v@ == m[TagName::SSID]
                } else {
                    r is None
                },
                None => r is None,
            },
    {
        match self.tagged_parameters() {
            Ok(tp) => tp.ssid(),
            Err(_) => None,
        }
    }
}

} // verus!
