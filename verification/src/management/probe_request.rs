//! The Probe Request frame view: no fixed parameters, tagged
//! parameters from 24.

use vstd::prelude::*;

use crate::frame::TruncatedFrame;
use crate::management::tagged_parameters::{walk_from, walk_overflow_required, parse_tagged, OverflowError, TagName, TaggedParameters};

verus! {

/// A read-only view over a Probe Request frame.
pub struct ProbeRequestFrame {
    bytes: Vec<u8>,
}

impl View for ProbeRequestFrame {
    type V = Seq<u8>;

    closed spec fn view(&self) -> Seq<u8> {
        self.bytes@
    }
}

impl ProbeRequestFrame {
    #[verifier::type_invariant]
    spec fn wf(&self) -> bool {
        self.bytes.len() >= 24
    }

    /// Wraps a buffer, refusing one shorter than this subtype's fixed
    /// parameters.
    pub fn new(bytes: Vec<u8>) -> (r: Result<ProbeRequestFrame, TruncatedFrame>)
        ensures
            match r {
                Ok(f) => bytes@.len() >= 24 && f@ == bytes@,
                Err(e) => {
                    &&& bytes@.len() < 24
                    &&& e.required == 24
                    &&& e.available == bytes@.len()
                },
            },
    {
        if bytes.len() < 24 {
            return Err(TruncatedFrame { required: 24, available: bytes.len() });
        }
        Ok(ProbeRequestFrame { bytes })
    }

    /// Walks the tagged-parameter region, which starts at byte 24.
    pub fn tagged_parameters(&self) -> (r: Result<TaggedParameters, OverflowError>)
        requires
            self@.len() + 260 <= usize::MAX,
        ensures
            match r {
                Ok(tp) => tp.wf() && walk_from(self@, 24, Map::empty()) == Some(tp@),
                Err(e) => {
                    &&& walk_from(self@, 24, Map::empty()) is None
                    &&& e.required == walk_overflow_required(self@, 24)
                    &&& e.available == self@.len()
                },
            },
    {
        proof {
            use_type_invariant(self);
        }
        parse_tagged(&self.bytes, 24)
    }

    /// The raw bytes of the SSID element, when the tagged-parameter region
    /// decodes and holds one.
    pub fn ssid(&self) -> (r: Option<Vec<u8>>)
        requires
            self@.len() + 260 <= usize::MAX,
        ensures
            match walk_from(self@, 24, Map::empty()) {
                Some(m) => if m.contains_key(TagName::SSID) {
                    r matches Some(v) && v@ == m[TagName::SSID]
                } else {
                    r is None
                },
                None => r is None,
            },
    {
        match self.tagged_parameters() {
            Ok(tp) => tp.ssid(),
            Err(_) => None,
        }
    }
}

} // verus!
