//! Bit layout of the fixed MAC header, shared by every frame view and
//! builder.
//!
//! The spec functions here are the single definition of where each header
//! field lives: byte 0 holds version (bits 0-1), type (bits 2-3) and subtype
//! (bits 4-7); byte 1 holds the eight control flags; bytes 2-3 hold
//! Duration/ID; four six-byte address slots sit at offsets 4, 10, 16 and 24;
//! bytes 22-23 hold the fragment/sequence field of Management and Data
//! frames.  Decoders and builders are both specified against these
//! functions, so the two cannot drift apart; the round-trip lemmas at the
//! end prove that writing a field and decoding it gives the value back while
//! leaving every other field alone.

use vstd::prelude::*;

use crate::mac_address::MacAddress;
use crate::types::{DurationID, FrameSubtype, FrameType, FrameVersion};
use crate::wire::{read_u16_at, u16_hi, u16_le, u16_lo, write_u16_at};

verus! {

broadcast use vstd::array::group_array_axioms;

/// Byte offset of the first address slot.
pub const ADDR1_OFFSET: usize = 4;

/// Byte offset of the second address slot.
pub const ADDR2_OFFSET: usize = 10;

/// Byte offset of the third address slot.
pub const ADDR3_OFFSET: usize = 16;

/// Byte offset of the fourth address slot (Data frames in WDS/Mesh mode
/// only, after the fragment/sequence field).
pub const ADDR4_OFFSET: usize = 24;

/// Byte offset of the fragment/sequence field (Management and Data frames).
pub const FRAGMENT_SEQUENCE_OFFSET: usize = 22;

/// Shortest buffer that holds the fixed header: frame control, Duration/ID
/// and the first address slot.
pub const MIN_FRAME_LEN: usize = 10;

// ---------------------------------------------------------------------------
// Field meaning: what a decoder reads.
// ---------------------------------------------------------------------------
/// Protocol version code: bits 0-1 of byte 0.
pub open spec fn version_bits(b: Seq<u8>) -> u8 {
    b[0] & 0x03
}

/// Frame category code: bits 2-3 of byte 0.
pub open spec fn type_bits(b: Seq<u8>) -> u8 {
    (b[0] & 0x0c) >> 2
}

/// Subtype code: bits 4-7 of byte 0.
pub open spec fn subtype_bits(b: Seq<u8>) -> u8 {
    (b[0] & 0xf0) >> 4
}

/// One of the eight control flags in byte 1, selected by its mask.
pub open spec fn flag_bit(b: Seq<u8>, mask: u8) -> bool {
    b[1] & mask != 0
}

/// The raw 16-bit Duration/ID field.
pub open spec fn duration_bits(b: Seq<u8>) -> u16 {
    u16_le(b, 2)
}

/// Meaning of the Duration/ID field: bit 15 clear leaves a 15-bit duration
/// in microseconds; bit 15 set selects the 14-bit association identifier,
/// which is only valid between 1 and 2007.
pub open spec fn spec_duration_or_id(b: Seq<u8>) -> DurationID {
    let raw = duration_bits(b);
    if raw & 0x8000 == 0 {
        DurationID::Duration(raw & 0x7fff)
    } else {
        let n = raw & 0x3fff;
        if 1 <= n && n <= 2007 {
            DurationID::AssociationID(n)
        } else {
            DurationID::Reserved(n)
        }
    }
}

/// The six address octets at offset `i`.
pub open spec fn addr_bits(b: Seq<u8>, i: int) -> Seq<u8> {
    b.subrange(i, i + 6)
}

/// Fragment number: low four bits of the fragment/sequence field.
pub open spec fn fragment_bits(b: Seq<u8>) -> u8 {
    b[22] & 0x0f
}

/// Sequence number: upper twelve bits of the fragment/sequence field.
pub open spec fn sequence_bits(b: Seq<u8>) -> u16 {
    u16_le(b, 22) >> 4
}

// ---------------------------------------------------------------------------
// Field layout: what a builder writes.  Each writer touches only the bits of
// its own field.
// ---------------------------------------------------------------------------
/// Byte 0 rewritten with version code `c` (masked to 2 bits).
pub open spec fn with_version(b: Seq<u8>, c: u8) -> Seq<u8> {
    b.update(0, (b[0] & !(0x03u8)) | (c & 0x03))
}

/// Byte 0 rewritten with category code `c` (masked to 2 bits).
pub open spec fn with_type(b: Seq<u8>, c: u8) -> Seq<u8> {
    b.update(0, (b[0] & !(0x0cu8)) | ((c << 2) & 0x0c))
}

/// Byte 0 rewritten with subtype code `c` (masked to 4 bits).
pub open spec fn with_subtype(b: Seq<u8>, c: u8) -> Seq<u8> {
    b.update(0, (b[0] & !(0xf0u8)) | ((c << 4) & 0xf0))
}

/// Byte 1 with the flag selected by `mask` switched to `on`.
pub open spec fn with_flag(b: Seq<u8>, mask: u8, on: bool) -> Seq<u8> {
    b.update(1, if on { b[1] | mask } else { b[1] & !mask })
}

/// The two bytes at `i` overwritten with `x`, least-significant first.
pub open spec fn with_u16(b: Seq<u8>, i: int, x: u16) -> Seq<u8> {
    b.update(i, u16_lo(x)).update(i + 1, u16_hi(x))
}

/// The six bytes at `i` overwritten with the address octets `m`.
pub open spec fn with_addr(b: Seq<u8>, i: int, m: Seq<u8>) -> Seq<u8> {
    Seq::new(b.len(), |j: int| if i <= j < i + 6 { m[j - i] } else { b[j] })
}

/// The 16-bit code that encodes a Duration/ID value.
pub open spec fn duration_code(d: DurationID) -> u16 {
    match d {
        DurationID::Duration(n) => n & 0x7fff,
        DurationID::AssociationID(n) => 0x8000 | (n & 0x3fff),
        DurationID::Reserved(n) => 0x8000 | (n & 0x3fff),
    }
}

/// The Duration/ID values that the wire format can represent: durations fit
/// in 15 bits; association identifiers run from 1 to 2007; the reserved
/// identifiers are 0 and 2008 through 16383.
pub open spec fn duration_representable(d: DurationID) -> bool {
    match d {
        DurationID::Duration(n) => n <= 0x7fff,
        DurationID::AssociationID(n) => 1 <= n && n <= 2007,
        DurationID::Reserved(n) => n == 0 || (2008 <= n && n <= 0x3fff),
    }
}

/// The fragment/sequence field with the fragment nibble replaced.
pub open spec fn with_fragment(b: Seq<u8>, f: u8) -> Seq<u8> {
    b.update(22, (b[22] & !(0x0fu8)) | (f & 0x0f))
}

/// The fragment/sequence field with the sequence bits replaced.
pub open spec fn with_sequence(b: Seq<u8>, s: u16) -> Seq<u8> {
    with_u16(b, 22, (u16_le(b, 22) & 0x000f) | (s << 4))
}

// ---------------------------------------------------------------------------
// Executable readers.
// ---------------------------------------------------------------------------
pub(crate) fn get_version(b: &Vec<u8>) -> (r: FrameVersion)
    requires
        b.len() >= 1,
    ensures
        r == FrameVersion::from_u8(version_bits(b@)),
{
    FrameVersion::from_u8(b[0] & 0x03)
}

pub(crate) fn get_type(b: &Vec<u8>) -> (r: FrameType)
    requires
        b.len() >= 1,
    ensures
        r == FrameType::from_u8(type_bits(b@)),
{
    FrameType::from_u8((b[0] & 0x0c) >> 2)
}

pub(crate) fn get_subtype(b: &Vec<u8>) -> (r: FrameSubtype)
    requires
        b.len() >= 1,
    ensures
        r == FrameSubtype::from_u8(FrameType::from_u8(type_bits(b@)), subtype_bits(b@)),
{
    let type_ = get_type(b);
    FrameSubtype::from_u8(type_, (b[0] & 0xf0) >> 4)
}

pub(crate) fn get_flag(b: &Vec<u8>, mask: u8) -> (r: bool)
    requires
        b.len() >= 2,
    ensures
        r == flag_bit(b@, mask),
{
    b[1] & mask != 0
}

pub(crate) fn get_duration_or_id(b: &Vec<u8>) -> (r: DurationID)
    requires
        b.len() >= 4,
    ensures
        r == spec_duration_or_id(b@),
{
    let raw = read_u16_at(b, 2);
    if raw & 0x8000 == 0 {
        DurationID::Duration(raw & 0x7fff)
    } else {
        let n = raw & 0x3fff;
        if n < 1 || n > 2007 {
            DurationID::Reserved(n)
        } else {
            DurationID::AssociationID(n)
        }
    }
}

pub(crate) fn get_mac(b: &Vec<u8>, i: usize) -> (r: MacAddress)
    requires
        i + 6 <= b.len(),
    ensures
        r@ == addr_bits(b@, i as int),
{
    let octets: [u8; 6] = [b[i], b[i + 1], b[i + 2], b[i + 3], b[i + 4], b[i + 5]];
    proof {
        assert(octets@ =~= addr_bits(b@, i as int));
        crate::mac_address::lemma_mac_address_from(octets);
    }
    MacAddress::from(octets)
}

pub(crate) fn get_fragment_number(b: &Vec<u8>) -> (r: u8)
    requires
        b.len() >= 23,
    ensures
        r == fragment_bits(b@),
{
    b[22] & 0x0f
}

pub(crate) fn get_sequence_number(b: &Vec<u8>) -> (r: u16)
    requires
        b.len() >= 24,
    ensures
        r == sequence_bits(b@),
{
    read_u16_at(b, 22) >> 4
}

// ---------------------------------------------------------------------------
// Executable writers.
// ---------------------------------------------------------------------------
pub(crate) fn set_version(b: &mut Vec<u8>, v: FrameVersion)
    requires
        old(b).len() >= 1,
    ensures
        final(b)@ == with_version(old(b)@, v.into_u8()),
{
    let c = v.into_u8();
    b[0] = (b[0] & !0x03) | (c & 0x03);
}

pub(crate) fn set_type(b: &mut Vec<u8>, t: FrameType)
    requires
        old(b).len() >= 1,
    ensures
        final(b)@ == with_type(old(b)@, t.into_u8()),
{
    let c = t.into_u8();
    b[0] = (b[0] & !0x0c) | ((c << 2) & 0x0c);
}

pub(crate) fn set_subtype(b: &mut Vec<u8>, s: FrameSubtype)
    requires
        old(b).len() >= 1,
    ensures
        final(b)@ == with_subtype(old(b)@, s.into_u8()),
{
    let c = s.into_u8();
    b[0] = (b[0] & !0xf0) | ((c << 4) & 0xf0);
}

pub(crate) fn set_flag(b: &mut Vec<u8>, mask: u8, on: bool)
    requires
        old(b).len() >= 2,
    ensures
        final(b)@ == with_flag(old(b)@, mask, on),
{
    if on {
        b[1] = b[1] | mask;
    } else {
        b[1] = b[1] & !mask;
    }
}

pub(crate) fn set_duration_or_id(b: &mut Vec<u8>, d: DurationID)
    requires
        old(b).len() >= 4,
    ensures
        final(b)@ == with_u16(old(b)@, 2, duration_code(d)),
{
    let code = match d {
        DurationID::Duration(n) => n & 0x7fff,
        DurationID::AssociationID(n) => 0x8000 | (n & 0x3fff),
        DurationID::Reserved(n) => 0x8000 | (n & 0x3fff),
    };
    write_u16_at(b, 2, code);
}

pub(crate) fn set_mac(b: &mut Vec<u8>, i: usize, mac: MacAddress)
    requires
        i + 6 <= old(b).len(),
    ensures
        final(b)@ == with_addr(old(b)@, i as int, mac@),
{
    let octets = mac.to_array();
    b[i] = octets[0];
    b[i + 1] = octets[1];
    b[i + 2] = octets[2];
    b[i + 3] = octets[3];
    b[i + 4] = octets[4];
    b[i + 5] = octets[5];
    proof {
        assert(b@ =~= with_addr(old(b)@, i as int, mac@));
    }
}

pub(crate) fn set_fragment_number(b: &mut Vec<u8>, f: u8)
    requires
        old(b).len() >= 23,
    ensures
        final(b)@ == with_fragment(old(b)@, f),
{
    b[22] = (b[22] & !0x0f) | (f & 0x0f);
}

pub(crate) fn set_sequence_number(b: &mut Vec<u8>, s: u16)
    requires
        old(b).len() >= 24,
    ensures
        final(b)@ == with_sequence(old(b)@, s),
{
    let kept = read_u16_at(b, 22) & 0x000f;
    write_u16_at(b, 22, kept | (s << 4));
}

// ---------------------------------------------------------------------------
// Round-trip laws: writing a field and decoding it yields the value back,
// and leaves every other header field as it was.
// ---------------------------------------------------------------------------
proof fn bv_byte0(x: u8, c: u8)
    by (bit_vector)
    ensures
        ((x & !(0x03u8)) | (c & 0x03)) & 0x03 == c & 0x03,
        ((x & !(0x03u8)) | (c & 0x03)) & 0x0c == x & 0x0c,
        ((x & !(0x03u8)) | (c & 0x03)) & 0xf0 == x & 0xf0,
        ((x & !(0x0cu8)) | ((c << 2) & 0x0c)) & 0x03 == x & 0x03,
        (((x & !(0x0cu8)) | ((c << 2) & 0x0c)) & 0x0c) >> 2 == c & 0x03,
        ((x & !(0x0cu8)) | ((c << 2) & 0x0c)) & 0xf0 == x & 0xf0,
        ((x & !(0xf0u8)) | ((c << 4) & 0xf0)) & 0x03 == x & 0x03,
        ((x & !(0xf0u8)) | ((c << 4) & 0xf0)) & 0x0c == x & 0x0c,
        (((x & !(0xf0u8)) | ((c << 4) & 0xf0)) & 0xf0) >> 4 == c & 0x0f,
        c < 4 ==> c & 0x03 == c,
        c < 16 ==> c & 0x0f == c,
{
}

proof fn bv_flag(x: u8, m: u8, m2: u8)
    by (bit_vector)
    ensures
        m != 0 ==> (x | m) & m != 0,
        (x & !m) & m == 0,
        m2 & m == 0 ==> (x | m) & m2 == x & m2,
        m2 & m == 0 ==> (x & !m) & m2 == x & m2,
{
}

proof fn bv_duration(n: u16)
    by (bit_vector)
    ensures
        (n & 0x7fff) & 0x8000 == 0,
        n <= 0x7fff ==> (n & 0x7fff) & 0x7fff == n,
        (0x8000u16 | (n & 0x3fff)) & 0x8000 != 0,
        (0x8000u16 | (n & 0x3fff)) & 0x3fff == n & 0x3fff,
        n <= 0x3fff ==> n & 0x3fff == n,
{
}

proof fn bv_frag_seq(lo: u8, hi: u8, f: u8, s: u16)
    by (bit_vector)
    ensures
        ((lo & !(0x0fu8)) | (f & 0x0f)) & 0x0f == f & 0x0f,
        f < 16 ==> f & 0x0f == f,
        (((((lo & !(0x0fu8)) | (f & 0x0f)) as u16) | ((hi as u16) << 8)) >> 4) == (((lo as u16) | (
        (hi as u16) << 8)) >> 4),
        ({
            let raw = (lo as u16) | ((hi as u16) << 8);
            let v = (raw & 0x000f) | (s << 4);
            &&& s < 4096 ==> v >> 4 == s
            &&& (((v & 0xff) as u8) & 0x0f) == lo & 0x0f
            &&& ((v & 0xff) as u8) == u16_lo(v)
            &&& ((v >> 8) as u8) == u16_hi(v)
        }),
{
}

/// After `with_version`, the version decodes back: exactly to `v` for the
/// values the two-bit field can represent canonically, while type, subtype
/// and the rest of the buffer are unchanged.
pub proof fn lemma_version_round_trip(b: Seq<u8>, v: FrameVersion)
    requires
        b.len() >= 1,
        v.into_u8() < 4,
        FrameVersion::from_u8(v.into_u8()) == v,
    ensures
        FrameVersion::from_u8(version_bits(with_version(b, v.into_u8()))) == v,
        type_bits(with_version(b, v.into_u8())) == type_bits(b),
        subtype_bits(with_version(b, v.into_u8())) == subtype_bits(b),
        forall|j: int| 1 <= j < b.len() ==> with_version(b, v.into_u8())[j] == b[j],
{
    bv_byte0(b[0], v.into_u8());
}

/// After `with_type`, the category decodes to the code that was written, and
/// version, subtype and the rest of the buffer are unchanged.
pub proof fn lemma_type_round_trip(b: Seq<u8>, t: FrameType)
    requires
        b.len() >= 1,
        t.into_u8() < 4,
    ensures
        type_bits(with_type(b, t.into_u8())) == t.into_u8(),
        version_bits(with_type(b, t.into_u8())) == version_bits(b),
        subtype_bits(with_type(b, t.into_u8())) == subtype_bits(b),
        forall|j: int| 1 <= j < b.len() ==> with_type(b, t.into_u8())[j] == b[j],
{
    bv_byte0(b[0], t.into_u8());
}

/// After `with_subtype`, the subtype code decodes to the nibble that was
/// written, and version, type and the rest of the buffer are unchanged.
pub proof fn lemma_subtype_bits_round_trip(b: Seq<u8>, s: FrameSubtype)
    requires
        b.len() >= 1,
        s.into_u8() < 16,
    ensures
        subtype_bits(with_subtype(b, s.into_u8())) == s.into_u8(),
        version_bits(with_subtype(b, s.into_u8())) == version_bits(b),
        type_bits(with_subtype(b, s.into_u8())) == type_bits(b),
        forall|j: int| 1 <= j < b.len() ==> with_subtype(b, s.into_u8())[j] == b[j],
{
    bv_byte0(b[0], s.into_u8());
}

/// Writing a category and a subtype nibble and decoding them together
/// yields the subtype back, for every subtype value the nibble can
/// represent canonically under its category.
pub proof fn lemma_subtype_round_trip(b: Seq<u8>, t: FrameType, s: FrameSubtype)
    requires
        b.len() >= 1,
        t.into_u8() < 4,
        s.into_u8() < 16,
        FrameType::from_u8(t.into_u8()) == t,
        FrameSubtype::from_u8(t, s.into_u8()) == s,
    ensures
        ({
            let b2 = with_subtype(with_type(b, t.into_u8()), s.into_u8());
            FrameSubtype::from_u8(FrameType::from_u8(type_bits(b2)), subtype_bits(b2)) == s
        }),
{
    lemma_type_round_trip(b, t);
    lemma_subtype_bits_round_trip(with_type(b, t.into_u8()), s);
}

/// After `with_flag`, the chosen flag reads back as `on`, every flag with a
/// disjoint mask is unchanged, and so is the rest of the buffer.
pub proof fn lemma_flag_round_trip(b: Seq<u8>, mask: u8, on: bool)
    requires
        b.len() >= 2,
        mask != 0,
    ensures
        flag_bit(with_flag(b, mask, on), mask) == on,
        forall|m2: u8| m2 & mask == 0 ==> #[trigger] flag_bit(with_flag(b, mask, on), m2)
            == flag_bit(b, m2),
        with_flag(b, mask, on)[0] == b[0],
        forall|j: int| 2 <= j < b.len() ==> with_flag(b, mask, on)[j] == b[j],
{
    assert forall|m2: u8| m2 & mask == 0 implies #[trigger] flag_bit(with_flag(b, mask, on), m2)
        == flag_bit(b, m2) by {
        bv_flag(b[1], mask, m2);
    }
    bv_flag(b[1], mask, 0);
}

/// Every representable Duration/ID value survives the encode/decode round
/// trip, including the boundary identifiers 1, 2007 and 2008; the encoding
/// touches only bytes 2 and 3.
pub proof fn lemma_duration_round_trip(b: Seq<u8>, d: DurationID)
    requires
        b.len() >= 4,
        duration_representable(d),
    ensures
        spec_duration_or_id(with_u16(b, 2, duration_code(d))) == d,
        forall|j: int|
            0 <= j < b.len() && j != 2 && j != 3 ==> with_u16(b, 2, duration_code(d))[j] == b[j],
{
    let code = duration_code(d);
    crate::wire::lemma_u16_le_bytes(code);
    assert(u16_le(with_u16(b, 2, code), 2) == code);
    match d {
        DurationID::Duration(n) => {
            bv_duration(n);
        },
        DurationID::AssociationID(n) => {
            bv_duration(n);
        },
        DurationID::Reserved(n) => {
            bv_duration(n);
        },
    }
}

/// Writing a Distribution-System status as its two flag bits and reading
/// the bits back yields the same status, and no other flag moves.
pub proof fn lemma_ds_status_flags_round_trip(b: Seq<u8>, s: crate::types::DSStatus)
    requires
        b.len() >= 2,
    ensures
        ({
            let b2 = with_flag(with_flag(b, 0x02, s.to_bools().0), 0x01, s.to_bools().1);
            &&& crate::types::DSStatus::from_bools(flag_bit(b2, 0x02), flag_bit(b2, 0x01)) == s
            &&& forall|m2: u8|
                m2 & 0x03 == 0 ==> #[trigger] flag_bit(b2, m2) == flag_bit(b, m2)
        }),
{
    let (from_ds, to_ds) = s.to_bools();
    let b1 = with_flag(b, 0x02, from_ds);
    let b2 = with_flag(b1, 0x01, to_ds);
    lemma_flag_round_trip(b, 0x02, from_ds);
    lemma_flag_round_trip(b1, 0x01, to_ds);
    assert(0x02u8 & 0x01 == 0) by (bit_vector);
    assert(flag_bit(b2, 0x02) == from_ds);
    crate::types::lemma_ds_status_round_trip(from_ds, to_ds, s);
    assert forall|m2: u8| m2 & 0x03 == 0 implies #[trigger] flag_bit(b2, m2) == flag_bit(
        b,
        m2,
    ) by {
        assert(m2 & 0x03 == 0 ==> m2 & 0x01 == 0 && m2 & 0x02 == 0) by (bit_vector);
    }
}

/// Writing a 16-bit code field (a reason or status code, a listen interval)
/// and decoding it through its numeric table yields the value back, for
/// every value the table maps to that code.
pub proof fn lemma_code_field_round_trip(b: Seq<u8>, i: int, code: u16)
    requires
        0 <= i,
        i + 2 <= b.len(),
    ensures
        u16_le(with_u16(b, i, code), i) == code,
        crate::types::ReasonCode::from_u16(code).into_u16() == code
            ==> crate::types::ReasonCode::from_u16(u16_le(with_u16(b, i, code), i))
            == crate::types::ReasonCode::from_u16(code),
        crate::types::StatusCode::from_u16(code).into_u16() == code
            ==> crate::types::StatusCode::from_u16(u16_le(with_u16(b, i, code), i))
            == crate::types::StatusCode::from_u16(code),
{
    lemma_u16_round_trip(b, i, code);
}

/// Decoding the Duration/ID field with bit 15 set yields the association
/// identifier for 1 through 2007 and a reserved value for 0 and 2008
/// through 16383.
pub proof fn lemma_duration_association_id(b: Seq<u8>, n: u16)
    requires
        b.len() >= 4,
        n <= 0x3fff,
        duration_bits(b) == 0x8000 | n,
    ensures
        1 <= n <= 2007 ==> spec_duration_or_id(b) == DurationID::AssociationID(n),
        (n == 0 || n >= 2008) ==> spec_duration_or_id(b) == DurationID::Reserved(n),
{
    bv_duration(n);
}

/// After `with_addr`, the six octets at slot `i` are exactly `m`, any
/// disjoint slot is unchanged, and so is every byte outside the slot.
pub proof fn lemma_addr_round_trip(b: Seq<u8>, i: int, m: Seq<u8>)
    requires
        0 <= i,
        i + 6 <= b.len(),
        m.len() == 6,
    ensures
        addr_bits(with_addr(b, i, m), i) == m,
        with_addr(b, i, m).len() == b.len(),
        forall|j: int| 0 <= j < b.len() && !(i <= j < i + 6) ==> with_addr(b, i, m)[j] == b[j],
        forall|i2: int|
            0 <= i2 && i2 + 6 <= b.len() && (i2 + 6 <= i || i + 6 <= i2) ==> #[trigger] addr_bits(
                with_addr(b, i, m),
                i2,
            ) == addr_bits(b, i2),
{
    assert(addr_bits(with_addr(b, i, m), i) =~= m);
    assert forall|i2: int|
        0 <= i2 && i2 + 6 <= b.len() && (i2 + 6 <= i || i + 6 <= i2) implies #[trigger] addr_bits(
        with_addr(b, i, m),
        i2,
    ) == addr_bits(b, i2) by {
        assert(addr_bits(with_addr(b, i, m), i2) =~= addr_bits(b, i2));
    }
}

/// After `with_u16`, the 16-bit field at `i` reads back as the value that
/// was written, and every byte outside the pair is unchanged.
pub proof fn lemma_u16_round_trip(b: Seq<u8>, i: int, x: u16)
    requires
        0 <= i,
        i + 2 <= b.len(),
    ensures
        u16_le(with_u16(b, i, x), i) == x,
        forall|j: int| 0 <= j < b.len() && j != i && j != i + 1 ==> with_u16(b, i, x)[j] == b[j],
{
    crate::wire::lemma_u16_le_bytes(x);
}

/// After `with_fragment`, the fragment number reads back (masked to four
/// bits) and the sequence number is unchanged; after `with_sequence`, a
/// sequence number below 4096 reads back and the fragment number is
/// unchanged.  Neither write touches bytes outside the pair at 22.
pub proof fn lemma_fragment_sequence_round_trip(b: Seq<u8>, f: u8, s: u16)
    requires
        b.len() >= 24,
        f < 16,
        s < 4096,
    ensures
        fragment_bits(with_fragment(b, f)) == f,
        sequence_bits(with_fragment(b, f)) == sequence_bits(b),
        sequence_bits(with_sequence(b, s)) == s,
        fragment_bits(with_sequence(b, s)) == fragment_bits(b),
        forall|j: int| 0 <= j < b.len() && !(22 <= j < 24) ==> with_fragment(b, f)[j] == b[j],
        forall|j: int| 0 <= j < b.len() && !(22 <= j < 24) ==> with_sequence(b, s)[j] == b[j],
{
    bv_frag_seq(b[22], b[23], f, s);
    let raw = u16_le(b, 22);
    let v = (raw & 0x000f) | (s << 4);
    assert(with_sequence(b, s)[22] == u16_lo(v));
    assert(with_sequence(b, s)[23] == u16_hi(v));
    crate::wire::lemma_u16_le_bytes(v);
    assert(u16_le(with_sequence(b, s), 22) == v);
}

} // verus!
