//! The Probe Response frame view: same fixed-parameter layout as a
//! Beacon.

use vstd::prelude::*;

use crate::frame::TruncatedFrame;
use crate::management::capabilities::{capabilities_at, spec_capabilities, CapabilitiesInfo};
use crate::wire::{read_u16_at, read_u64_at, u16_le, u64_le};
use crate::management::tagged_parameters::{walk_from, walk_overflow_required, parse_tagged, OverflowError, TagName, TaggedParameters};

verus! {

/// A read-only view over a Probe Response frame.
pub struct ProbeResponseFrame {
    bytes: Vec<u8>,
}

impl View for ProbeResponseFrame {
    type V = Seq<u8>;

    closed spec fn view(&self) -> Seq<u8> {
        self.bytes@
    }
}

impl ProbeResponseFrame {
    #[verifier::type_invariant]
    spec fn wf(&self) -> bool {
        self.bytes.len() >= 36
    }

    /// Wraps a buffer, refusing one shorter than this subtype's fixed
    /// parameters.
    pub fn new(bytes: Vec<u8>) -> (r: Result<ProbeResponseFrame, TruncatedFrame>)
        ensures
            match r {
                Ok(f) => bytes@.len() >= 36 && f@ == bytes@,
                Err(e) => {
                    &&& bytes@.len() < 36
                    &&& e.required == 36
                    &&& e.available == bytes@.len()
                },
            },
    {
        if bytes.len() < 36 {
            return Err(TruncatedFrame { required: 36, available: bytes.len() });
        }
        Ok(ProbeResponseFrame { bytes })
    }

    /// Timestamp: microseconds the transmitter has been active.
    pub fn timestamp(&self) -> (r: u64)
        ensures
            r == u64_le(self@, 24),
    {
        proof {
            use_type_invariant(self);
        }
        read_u64_at(&self.bytes, 24)
    }

    /// Beacon interval, in time units of 1024 microseconds.
    pub fn beacon_interval(&self) -> (r: u16)
        ensures
            r == u16_le(self@, 32),
    {
        proof {
            use_type_invariant(self);
        }
        read_u16_at(&self.bytes, 32)
    }

    /// The Capabilities Information field.
    pub fn capabilities_info(&self) -> (r: CapabilitiesInfo)
        ensures
            r == spec_capabilities(self@[34], self@[35]),
    {
        proof {
            use_type_invariant(self);
        }
        capabilities_at(&self.bytes, 34)
    }

    /// Walks the tagged-parameter region, which starts at byte 36.
    pub fn tagged_parameters(&self) -> (r: Result<TaggedParameters, OverflowError>)
        requires
            self@.len() + 260 <= usize::MAX,
        ensures
            match r {
                Ok(tp) => tp.wf() && walk_from(self@, 36, Map::empty()) == Some(tp@),
                Err(e) => {
                    &&& walk_from(self@, 36, Map::empty()) is None
                    &&& e.required == walk_overflow_required(self@, 36)
                    &&& e.available == self@.len()
                },
            },
    {
        proof {
            use_type_invariant(self);
        }
        parse_tagged(&self.bytes, 36)
    }

    /// The raw bytes of the SSID element, when the tagged-parameter region
    /// decodes and holds one.
    pub fn ssid(&self) -> (r: Option<Vec<u8>>)
        requires
            self@.len() + 260 <= usize::MAX,
        ensures
            match walk_from(self@, 36, Map::empty()) {
                Some(m) => if m.contains_key(TagName::SSID) {
                    r matches Some(v) && v@ == m[TagName::SSID]
                } else {
                    r is None
                },
                None => r is None,
            },
    {
        match self.tagged_parameters() {
            Ok(tp) => tp.ssid(),
            Err(_) => None,
        }
    }
}

} // verus!
