//! The RSN (Robust Security Network) information element.
//!
//! The element body is decoded step by step, each step bounds-checked
//! against the remaining bytes; a truncated element yields the prefix that
//! was parsed, with the unreachable fields left empty, rather than failing.

use vstd::prelude::*;

use crate::wire::{read_u16_at, u16_le};

verus! {

broadcast use vstd::array::group_array_axioms;

/// A cipher suite selector: a standard IEEE 802.11 suite under the OUI
/// 00-0F-AC, any other OUI kept as a vendor pair.
#[derive(Debug, PartialEq)]
pub enum CipherSuite {
    Standard(CipherSuiteType),
    Vendor([u8; 3], u8),
}

/// The standard cipher suite types.
#[derive(Debug, PartialEq)]
pub enum CipherSuiteType {
    UseGroupCipherSuite, // 0
    WEP40,               // 1
    TKIP,                // 2
    Reserved(u8),        // 3 Reserved
    CCMP,                // 4 // AES (CCM)
    WEP104,              // 5
    BIP,                 // 6
    GroupAddressedTrafficNotAllowed, // 7
                         // 8-255 Reserved
}

impl CipherSuiteType {
    pub open spec fn spec_from(type_: u8) -> Self {
        match type_ {
            1 => Self::WEP40,
            2 => Self::TKIP,
            4 => Self::CCMP,
            5 => Self::WEP104,
            6 => Self::BIP,
            7 => Self::GroupAddressedTrafficNotAllowed,
            _ => Self::Reserved(type_),
        }
    }

    #[verifier::when_used_as_spec(spec_from)]
    fn from(type_: u8) -> (r: Self)
        ensures
            r == Self::spec_from(type_),
    {
        match type_ {
            1 => Self::WEP40,
            2 => Self::TKIP,
            4 => Self::CCMP,
            5 => Self::WEP104,
            6 => Self::BIP,
            7 => Self::GroupAddressedTrafficNotAllowed,
            other => Self::Reserved(other),
        }
    }
}

impl CipherSuite {
    /// The standard suite for the IEEE OUI, a vendor pair for any other.
    pub open spec fn spec_from(oui: [u8; 3], type_: u8) -> Self {
        if oui@ == seq![0x00u8, 0x0f, 0xac] {
            Self::Standard(CipherSuiteType::spec_from(type_))
        } else {
            Self::Vendor(oui, type_)
        }
    }

    #[verifier::when_used_as_spec(spec_from)]
    fn from(oui: [u8; 3], type_: u8) -> (r: Self)
        ensures
            r == Self::spec_from(oui, type_),
    {
        if oui[0] == 0x00 && oui[1] == 0x0f && oui[2] == 0xac {
            proof {
                assert(oui@ =~= seq![0x00u8, 0x0f, 0xac]);
            }
            Self::Standard(CipherSuiteType::from(type_))
        } else {
            proof {
                assert(oui@ != seq![0x00u8, 0x0f, 0xac]) by {
                    if oui@ == seq![0x00u8, 0x0f, 0xac] {
                        assert(oui[0] == 0x00 && oui[1] == 0x0f && oui[2] == 0xac);
                    }
                }
            }
            Self::Vendor(oui, type_)
        }
    }
}

/// An AKM suite selector, like [`CipherSuite`].
#[derive(Debug, PartialEq)]
pub enum AKMSuite {
    Standard(AKMSuiteType),
    Vendor([u8; 3], u8),
}

impl AKMSuite {
    /// The standard suite for the IEEE OUI, a vendor pair for any other.
    pub open spec fn spec_from(oui: [u8; 3], type_: u8) -> Self {
        if oui@ == seq![0x00u8, 0x0f, 0xac] {
            Self::Standard(AKMSuiteType::spec_from(type_))
        } else {
            Self::Vendor(oui, type_)
        }
    }

    #[verifier::when_used_as_spec(spec_from)]
    fn from(oui: [u8; 3], type_: u8) -> (r: Self)
        ensures
            r == Self::spec_from(oui, type_),
    {
        if oui[0] == 0x00 && oui[1] == 0x0f && oui[2] == 0xac {
            proof {
                assert(oui@ =~= seq![0x00u8, 0x0f, 0xac]);
            }
            Self::Standard(AKMSuiteType::from(type_))
        } else {
            proof {
                assert(oui@ != seq![0x00u8, 0x0f, 0xac]) by {
                    if oui@ == seq![0x00u8, 0x0f, 0xac] {
                        assert(oui[0] == 0x00 && oui[1] == 0x0f && oui[2] == 0xac);
                    }
                }
            }
            Self::Vendor(oui, type_)
        }
    }
}

/// Authentication and Key Management Suite
#[derive(Debug, PartialEq)]
pub enum AKMSuiteType {
    Reserved(u8), // 0 Reserved
    /// IEEE 802.1X with RSNA default
    IEEE802_1X, // 1
    /// Pre-Shared-Key
    PSK, // 2
    /// FT auth negotiated over IEEE 802.1X
    FTOver802_1X, // 3
    /// FT auth using PSK
    FTPSK, // 4
    /// IEEE 802.1X with SHA256 Key Derivation
    IEEE802_1XSHA, // 5
    /// PSK with SHA256 Key Derivation
    PSKSHA, // 6
    /// TPK Handshake
    TDLS, // 7
    /// SAE with SHA256
    SAE, // 8
    /// FT auth over SAE with SHA256
    FTOverSAE, // 9
    //  10-255 Reserved
}

impl AKMSuiteType {
    pub open spec fn spec_from(type_: u8) -> Self {
        match type_ {
            1 => Self::IEEE802_1X,
            2 => Self::PSK,
            3 => Self::FTOver802_1X,
            4 => Self::FTPSK,
            5 => Self::IEEE802_1XSHA,
            6 => Self::PSKSHA,
            7 => Self::TDLS,
            8 => Self::SAE,
            9 => Self::FTOverSAE,
            _ => Self::Reserved(type_),
        }
    }

    #[verifier::when_used_as_spec(spec_from)]
    fn from(type_: u8) -> (r: Self)
        ensures
            r == Self::spec_from(type_),
    {
        match type_ {
            1 => Self::IEEE802_1X,
            2 => Self::PSK,
            3 => Self::FTOver802_1X,
            4 => Self::FTPSK,
            5 => Self::IEEE802_1XSHA,
            6 => Self::PSKSHA,
            7 => Self::TDLS,
            8 => Self::SAE,
            9 => Self::FTOverSAE,
            other => Self::Reserved(other),
        }
    }
}

/// The trailing RSN Capabilities bitfield.
#[derive(Debug, PartialEq)]
pub struct RSNCapabilities {
    /// 0: RSN Pre-Auth capabilities: Transmitter does not support pre-authentication
    pub pre_auth: bool,
    /// 0: RSN No Pairwise capabilities: Transmitter can support WEP default key 0 simultaneously with Pairwise key
    pub pairwise: bool,
    /// Replay counters per PTKSA: 0 means 1, 1 means 2, 2 means 4, 3 means 16.
    pub ptksa_replay_counter_value: u8,
    /// Replay counters per GTKSA, on the same scale.
    pub gtksa_replay_counter_value: u8,
    /// Management Frame Protection Required
    pub management_frame_protection_required: bool,
    /// Management Frame Protection Capable
    pub management_frame_protection_capable: bool,
    /// Joint Multi-band RSNA
    pub joint_multi_band_rsna: bool,
    /// PeerKey Enabled
    pub peerkey: bool,
}

/// Meaning of the RSN Capabilities bitfield.
pub open spec fn spec_rsn_capabilities(w: u16) -> RSNCapabilities {
    RSNCapabilities {
        pre_auth: w & 0x0001 != 0,
        pairwise: w & 0x0002 != 0,
        ptksa_replay_counter_value: ((w & 0x000c) >> 2) as u8,
        gtksa_replay_counter_value: ((w & 0x0030) >> 4) as u8,
        management_frame_protection_required: w & 0x0040 != 0,
        management_frame_protection_capable: w & 0x0080 != 0,
        joint_multi_band_rsna: w & 0x0100 != 0,
        peerkey: w & 0x0200 != 0,
    }
}

/// An RSN element: decoded when its version is the standard one, kept as a
/// raw version number otherwise.
#[derive(Debug, PartialEq)]
pub enum RSNVersion {
    Standard(RSN), // 1
    Reserved(u16),
}

/// The decoded body of a standard RSN element.
#[derive(Debug, PartialEq)]
pub struct RSN {
    pub group_cipher_suite: Option<CipherSuite>,
    pub pairwise_cipher_suites: Vec<CipherSuite>,
    pub akm_suites: Vec<AKMSuite>,
    pub capabilities: Option<RSNCapabilities>,
}

/// The three bytes at `i` are the standard IEEE 802.11 OUI 00-0F-AC.
pub open spec fn std_oui_at(b: Seq<u8>, i: int) -> bool {
    b[i] == 0x00 && b[i + 1] == 0x0f && b[i + 2] == 0xac
}

/// `cs` is the cipher suite encoded by the four bytes at `i`.
pub open spec fn cipher_suite_wf(cs: CipherSuite, b: Seq<u8>, i: int) -> bool {
    match cs {
        CipherSuite::Standard(t) => std_oui_at(b, i) && t == CipherSuiteType::spec_from(b[i + 3]),
        CipherSuite::Vendor(oui, t) => !std_oui_at(b, i) && oui@ == b.subrange(i, i + 3) && t == b[
            i + 3
        ],
    }
}

/// `s` is the AKM suite encoded by the four bytes at `i`.
pub open spec fn akm_suite_wf(s: AKMSuite, b: Seq<u8>, i: int) -> bool {
    match s {
        AKMSuite::Standard(t) => std_oui_at(b, i) && t == AKMSuiteType::spec_from(b[i + 3]),
        AKMSuite::Vendor(oui, t) => !std_oui_at(b, i) && oui@ == b.subrange(i, i + 3) && t == b[i
            + 3],
    }
}

/// `c` is the capabilities field read at `i`, when the two bytes for it are
/// there, and absent otherwise.
pub open spec fn caps_wf(c: Option<RSNCapabilities>, b: Seq<u8>, i: int) -> bool {
    if i + 2 <= b.len() {
        c matches Some(x) && x == spec_rsn_capabilities(u16_le(b, i))
    } else {
        c is None
    }
}

/// The AKM-count, AKM-list and capabilities fields of `r` are what the
/// bytes from `i1` on encode, with everything past a truncation left empty.
pub open spec fn akm_section_wf(r: RSN, b: Seq<u8>, i1: int) -> bool {
    let len = b.len() as int;
    &&& (i1 + 2 > len ==> r.akm_suites@.len() == 0 && r.capabilities is None)
    &&& (i1 + 2 <= len ==> {
        let ac = u16_le(b, i1) as int;
        let avail = (len - i1 - 2) / 4;
        let na = if ac <= avail {
            ac
        } else {
            avail
        };
        &&& r.akm_suites@.len() == na
        &&& (forall|j: int|
            0 <= j < na ==> akm_suite_wf(#[trigger] r.akm_suites@[j], b, i1 + 2 + 4 * j))
        &&& (ac > avail ==> r.capabilities is None)
        &&& (ac <= avail ==> caps_wf(r.capabilities, b, i1 + 2 + 4 * ac))
    })
}

/// `r` is the decode of the RSN element body `b` (the bytes after the
/// version field): group suite, pairwise list, AKM list and capabilities in
/// order, each present exactly when its bytes are, and lists cut short at a
/// truncation.
pub open spec fn rsn_wf(r: RSN, b: Seq<u8>) -> bool {
    let len = b.len() as int;
    &&& (len < 4 ==> r.group_cipher_suite is None)
    &&& (len >= 4 ==> (r.group_cipher_suite matches Some(g) && cipher_suite_wf(g, b, 0)))
    &&& (len < 6 ==> r.pairwise_cipher_suites@.len() == 0 && r.akm_suites@.len() == 0
        && r.capabilities is None)
    &&& (len >= 6 ==> {
        let pc = u16_le(b, 4) as int;
        let avail = (len - 6) / 4;
        let np = if pc <= avail {
            pc
        } else {
            avail
        };
        &&& r.pairwise_cipher_suites@.len() == np
        &&& (forall|j: int|
            0 <= j < np ==> cipher_suite_wf(#[trigger] r.pairwise_cipher_suites@[j], b, 6 + 4 * j))
        &&& (pc > avail ==> r.akm_suites@.len() == 0 && r.capabilities is None)
        &&& (pc <= avail ==> akm_section_wf(r, b, 6 + 4 * pc))
    })
}

fn read_cipher_suite(b: &Vec<u8>, i: usize) -> (r: CipherSuite)
    requires
        i + 4 <= b.len(),
    ensures
        cipher_suite_wf(r, b@, i as int),
{
    let oui: [u8; 3] = [b[i], b[i + 1], b[i + 2]];
    proof {
        assert(oui@ =~= b@.subrange(i as int, i as int + 3));
        assert(oui@ == seq![0x00u8, 0x0f, 0xac] <==> std_oui_at(b@, i as int)) by {
            if oui@ == seq![0x00u8, 0x0f, 0xac] {
                assert(oui[0] == 0x00 && oui[1] == 0x0f && oui[2] == 0xac);
            }
            if std_oui_at(b@, i as int) {
                assert(oui@ =~= seq![0x00u8, 0x0f, 0xac]);
            }
        }
    }
    CipherSuite::from(oui, b[i + 3])
}

fn read_akm_suite(b: &Vec<u8>, i: usize) -> (r: AKMSuite)
    requires
        i + 4 <= b.len(),
    ensures
        akm_suite_wf(r, b@, i as int),
{
    let oui: [u8; 3] = [b[i], b[i + 1], b[i + 2]];
    proof {
        assert(oui@ =~= b@.subrange(i as int, i as int + 3));
        assert(oui@ == seq![0x00u8, 0x0f, 0xac] <==> std_oui_at(b@, i as int)) by {
            if oui@ == seq![0x00u8, 0x0f, 0xac] {
                assert(oui[0] == 0x00 && oui[1] == 0x0f && oui[2] == 0xac);
            }
            if std_oui_at(b@, i as int) {
                assert(oui@ =~= seq![0x00u8, 0x0f, 0xac]);
            }
        }
    }
    AKMSuite::from(oui, b[i + 3])
}

/// Decodes a standard-version RSN element body, tolerating truncation at
/// every step.
pub(crate) fn make_std_rsn(bytes: &Vec<u8>) -> (r: RSN)
    ensures
        rsn_wf(r, bytes@),
{
    let len = bytes.len();
    let mut rsn = RSN {
        group_cipher_suite: None,
        pairwise_cipher_suites: Vec::new(),
        akm_suites: Vec::new(),
        capabilities: None,
    };
    if len < 4 {
        return rsn;
    }
    rsn.group_cipher_suite = Some(read_cipher_suite(bytes, 0));
    if len < 6 {
        return rsn;
    }
    let pairwise_count = read_u16_at(bytes, 4) as usize;
    let mut i: usize = 6;
    let mut j: usize = 0;
    while j < pairwise_count
        invariant
            len == bytes.len(),
            6 <= len,
            i == 6 + 4 * j,
            i <= len,
            j <= pairwise_count,
            pairwise_count == u16_le(bytes@, 4),
            rsn.pairwise_cipher_suites@.len() == j,
            forall|k: int|
                0 <= k < j ==> cipher_suite_wf(
                    #[trigger] rsn.pairwise_cipher_suites@[k],
                    bytes@,
                    6 + 4 * k,
                ),
            rsn.group_cipher_suite matches Some(g) && cipher_suite_wf(g, bytes@, 0),
            rsn.akm_suites@.len() == 0,
            rsn.capabilities is None,
        decreases pairwise_count - j,
    {
        if len - i < 4 {
            proof {
                assert(j == (len - 6) as int / 4) by (nonlinear_arith)
                    requires
                        i == 6 + 4 * j,
                        i <= len,
                        len - i < 4,
                        6 <= len,
                ;
            }
            return rsn;
        }
        rsn.pairwise_cipher_suites.push(read_cipher_suite(bytes, i));
        i = i + 4;
        j = j + 1;
    }
    proof {
        assert(pairwise_count as int <= (len - 6) as int / 4) by (nonlinear_arith)
            requires
                i == 6 + 4 * pairwise_count,
                i <= len,
                6 <= len,
        ;
    }
    if len - i < 2 {
        return rsn;
    }
    let akm_count = read_u16_at(bytes, i) as usize;
    let ghost i1 = i as int;
    i = i + 2;
    let mut j: usize = 0;
    while j < akm_count
        invariant
            len == bytes.len(),
            6 <= len,
            i1 == 6 + 4 * (rsn.pairwise_cipher_suites@.len() as int),
            i1 + 2 <= len,
            i == i1 + 2 + 4 * j,
            i <= len,
            j <= akm_count,
            akm_count == u16_le(bytes@, i1),
            pairwise_count == u16_le(bytes@, 4),
            rsn.pairwise_cipher_suites@.len() == pairwise_count,
            forall|k: int|
                0 <= k < pairwise_count ==> cipher_suite_wf(
                    #[trigger] rsn.pairwise_cipher_suites@[k],
                    bytes@,
                    6 + 4 * k,
                ),
            rsn.group_cipher_suite matches Some(g) && cipher_suite_wf(g, bytes@, 0),
            rsn.akm_suites@.len() == j,
            forall|k: int|
                0 <= k < j ==> akm_suite_wf(#[trigger] rsn.akm_suites@[k], bytes@, i1 + 2 + 4 * k),
            rsn.capabilities is None,
        decreases akm_count - j,
    {
        if len - i < 4 {
            proof {
                assert(j == (len - i1 - 2) as int / 4) by (nonlinear_arith)
                    requires
                        i == i1 + 2 + 4 * j,
                        i <= len,
                        len - i < 4,
                        i1 + 2 <= len,
                ;
                assert(pairwise_count as int <= (len as int - 6) / 4) by (nonlinear_arith)
                    requires
                        i1 == 6 + 4 * pairwise_count,
                        i1 + 2 <= len,
                ;
            }
            return rsn;
        }
        rsn.akm_suites.push(read_akm_suite(bytes, i));
        i = i + 4;
        j = j + 1;
    }
    proof {
        assert(akm_count as int <= (len - i1 - 2) as int / 4) by (nonlinear_arith)
            requires
                i == i1 + 2 + 4 * akm_count,
                i <= len,
                i1 + 2 <= len,
        ;
        assert(pairwise_count as int <= (len as int - 6) / 4) by (nonlinear_arith)
            requires
                i1 == 6 + 4 * pairwise_count,
                i1 + 2 <= len,
        ;
    }
    if len - i < 2 {
        return rsn;
    }
    let w = read_u16_at(bytes, i);
    rsn.capabilities = Some(
        RSNCapabilities {
            pre_auth: w & 0x0001 != 0,
            pairwise: w & 0x0002 != 0,
            ptksa_replay_counter_value: ((w & 0x000c) >> 2) as u8,
            gtksa_replay_counter_value: ((w & 0x0030) >> 4) as u8,
            management_frame_protection_required: w & 0x0040 != 0,
            management_frame_protection_capable: w & 0x0080 != 0,
            joint_multi_band_rsna: w & 0x0100 != 0,
            peerkey: w & 0x0200 != 0,
        },
    );
    rsn
}

} // verus!
