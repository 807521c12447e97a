//! The Authentication frame view: algorithm, transaction sequence and
//! status at 24, tagged parameters from 30.

use vstd::prelude::*;

use crate::frame::TruncatedFrame;
use crate::types::StatusCode;
use crate::wire::{read_u16_at, u16_le};
use crate::management::tagged_parameters::{walk_from, walk_overflow_required, parse_tagged, OverflowError, TagName, TaggedParameters};

verus! {

/// The authentication algorithm named in an Authentication frame.
#[derive(Debug, PartialEq)]
pub enum AuthenticationAlgorithm {
    OpenSystem,
    SharedKey,
    FastBSSTransition,
    SAE,
    FILSSharedKeyWithoutPFS,
    FILSSharedKeyWithPFS,
    FILSPublicKey,
    NetworkEAP, // 0x80
    Reserved(u16),
}

impl AuthenticationAlgorithm {
    pub open spec fn spec_from_u16(n: u16) -> Self {
        match n {
            0 => Self::OpenSystem,
            1 => Self::SharedKey,
            2 => Self::FastBSSTransition,
            3 => Self::SAE,
            4 => Self::FILSSharedKeyWithoutPFS,
            5 => Self::FILSSharedKeyWithPFS,
            6 => Self::FILSPublicKey,
            0x80 => Self::NetworkEAP,
            _ => Self::Reserved(n),
        }
    }

    #[verifier::when_used_as_spec(spec_from_u16)]
    pub fn from_u16(n: u16) -> (r: Self)
        ensures
            r == Self::spec_from_u16(n),
    {
        match n {
            0 => Self::OpenSystem,
            1 => Self::SharedKey,
            2 => Self::FastBSSTransition,
            3 => Self::SAE,
            4 => Self::FILSSharedKeyWithoutPFS,
            5 => Self::FILSSharedKeyWithPFS,
            6 => Self::FILSPublicKey,
            0x80 => Self::NetworkEAP, // 0x80
            other => Self::Reserved(other),
        }
    }
}

/// A read-only view over an Authentication frame.
pub struct AuthenticationFrame {
    bytes: Vec<u8>,
}

impl View for AuthenticationFrame {
    type V = Seq<u8>;

    closed spec fn view(&self) -> Seq<u8> {
        self.bytes@
    }
}

impl AuthenticationFrame {
    #[verifier::type_invariant]
    spec fn wf(&self) -> bool {
        self.bytes.len() >= 30
    }

    /// Wraps a buffer, refusing one shorter than this subtype's fixed
    /// parameters.
    pub fn new(bytes: Vec<u8>) -> (r: Result<AuthenticationFrame, TruncatedFrame>)
        ensures
            match r {
                Ok(f) => bytes@.len() >= 30 && f@ == bytes@,
                Err(e) => {
                    &&& bytes@.len() < 30
                    &&& e.required == 30
                    &&& e.available == bytes@.len()
                },
            },
    {
        if bytes.len() < 30 {
            return Err(TruncatedFrame { required: 30, available: bytes.len() });
        }
        Ok(AuthenticationFrame { bytes })
    }

    /// The authentication algorithm in use.
    pub fn authentication_algorithm(&self) -> (r: AuthenticationAlgorithm)
        ensures
            r == AuthenticationAlgorithm::from_u16(u16_le(self@, 24)),
    {
        proof {
            use_type_invariant(self);
        }
        AuthenticationAlgorithm::from_u16(read_u16_at(&self.bytes, 24))
    }

    /// Position within the authentication transaction.
    pub fn authentication_seq(&self) -> (r: u16)
        ensures
            r == u16_le(self@, 26),
    {
        proof {
            use_type_invariant(self);
        }
        read_u16_at(&self.bytes, 26)
    }

    /// The status code of the transaction step.
    pub fn status_code(&self) -> (r: StatusCode)
        ensures
            r == StatusCode::from_u16(u16_le(self@, 28)),
    {
        proof {
            use_type_invariant(self);
        }
        StatusCode::from_u16(read_u16_at(&self.bytes, 28))
    }

    /// Walks the tagged-parameter region, which starts at byte 30.
    pub fn tagged_parameters(&self) -> (r: Result<TaggedParameters, OverflowError>)
        requires
            self@.len() + 260 <= usize::MAX,
        ensures
            match r {
                Ok(tp) => tp.wf() && walk_from(self@, 30, Map::empty()) == Some(tp@),
                Err(e) => {
                    &&& walk_from(self@, 30, Map::empty()) is None
                    &&& e.required == walk_overflow_required(self@, 30)
                    &&& e.available == self@.len()
                },
            },
    {
        proof {
            use_type_invariant(self);
        }
        parse_tagged(&self.bytes, 30)
    }

    /// The raw bytes of the SSID element, when the tagged-parameter region
    /// decodes and holds one.
    pub fn ssid(&self) -> (r: Option<Vec<u8>>)
        requires
            self@.len() + 260 <= usize::MAX,
        ensures
            match walk_from(self@, 30, Map::empty()) {
                Some(m) => if m.contains_key(TagName::SSID) {
                    r matches Some(v) && v@ == m[TagName::SSID]
                } else {
                    r is None
                },
                None => r is None,
            },
    {
        match self.tagged_parameters() {
            Ok(tp) => tp.ssid(),
            Err(_) => None,
        }
    }
}

} // verus!
