//! The tagged-parameter (information element) region of management frames.
//!
//! The region is a run of `(tag, length, value)` records.  The walker
//! consumes records until the cursor reaches the end of the buffer exactly;
//! a record whose declared length reaches past the end is a decode failure,
//! reported with the byte counts that were required and available.  The
//! records that were read are collected into a map from tag name to raw
//! value bytes, where a repeated tag keeps its last occurrence.

use vstd::prelude::*;

use crate::management::rsn::{make_std_rsn, rsn_wf, RSNVersion};
use crate::wire::u16_le;

verus! {

/// Name of a tagged parameter; tags outside the known table keep their
/// number under `Other`.
#[derive(Debug, Copy, Clone, PartialEq, Hash, Eq, Structural)]
pub enum TagName {
    Other(u8),
    SSID,
    SupportedRates,
    DSParameter,
    TrafficIndicationMap,
    CountryInformation,
    ERPInformation,
    ExtendedSupportedRates,
    RSNInformation,
    QBSSLoadElement,
    HTCapabilities,
    HTInformation,
    ExtendedCapabilities,
}

/// The fixed tag-number table.
pub open spec fn spec_tag_name(n: u8) -> TagName {
    match n {
        0 => TagName::SSID,
        1 => TagName::SupportedRates,
        3 => TagName::DSParameter,
        5 => TagName::TrafficIndicationMap,
        7 => TagName::CountryInformation,
        11 => TagName::QBSSLoadElement,
        42 => TagName::ERPInformation,
        45 => TagName::HTCapabilities,
        48 => TagName::RSNInformation,
        50 => TagName::ExtendedSupportedRates,
        61 => TagName::HTInformation,
        127 => TagName::ExtendedCapabilities,
        _ => TagName::Other(n),
    }
}

fn tag_name_of(n: u8) -> (r: TagName)
    ensures
        r == spec_tag_name(n),
{
    match n {
        0 => TagName::SSID,
        1 => TagName::SupportedRates,
        3 => TagName::DSParameter,
        5 => TagName::TrafficIndicationMap,
        7 => TagName::CountryInformation,
        11 => TagName::QBSSLoadElement,
        42 => TagName::ERPInformation,
        45 => TagName::HTCapabilities,
        48 => TagName::RSNInformation,
        50 => TagName::ExtendedSupportedRates,
        61 => TagName::HTInformation,
        127 => TagName::ExtendedCapabilities,
        other => TagName::Other(other),
    }
}

/// A tagged-parameter record reached past the end of its region:
/// `required` bytes were needed, `available` were there.
#[derive(Debug, Copy, Clone, PartialEq, Eq, Structural)]
pub struct OverflowError {
    pub required: usize,
    pub available: usize,
}

impl OverflowError {
    pub fn new(required: usize, available: usize) -> (r: OverflowError)
        ensures
            r.required == required,
            r.available == available,
    {
        OverflowError { required, available }
    }
}

/// The map described by the first `n` entries of an association list,
/// later entries overriding earlier ones.
pub open spec fn map_of(s: Seq<(TagName, Vec<u8>)>, n: int) -> Map<TagName, Seq<u8>>
    decreases n,
{
    if n <= 0 {
        Map::empty()
    } else {
        map_of(s, n - 1).insert(s[n - 1].0, s[n - 1].1@)
    }
}

/// The map described by a whole association list.
pub open spec fn map_of_entries(s: Seq<(TagName, Vec<u8>)>) -> Map<TagName, Seq<u8>> {
    map_of(s, s.len() as int)
}

/// No tag name occurs twice.
pub open spec fn keys_unique(s: Seq<(TagName, Vec<u8>)>) -> bool {
    forall|i: int, j: int| 0 <= i < j < s.len() ==> (#[trigger] s[i]).0 != (#[trigger] s[j]).0
}

proof fn lemma_map_of_prefix(s1: Seq<(TagName, Vec<u8>)>, s2: Seq<(TagName, Vec<u8>)>, n: int)
    requires
        0 <= n <= s1.len(),
        n <= s2.len(),
        forall|i: int| 0 <= i < n ==> s1[i] == s2[i],
    ensures
        map_of(s1, n) == map_of(s2, n),
    decreases n,
{
    if n > 0 {
        lemma_map_of_prefix(s1, s2, n - 1);
    }
}

proof fn lemma_map_of_contains(s: Seq<(TagName, Vec<u8>)>, n: int, k: TagName)
    requires
        0 <= n <= s.len(),
    ensures
        map_of(s, n).contains_key(k) <==> exists|i: int| 0 <= i < n && (#[trigger] s[i]).0 == k,
    decreases n,
{
    if n > 0 {
        lemma_map_of_contains(s, n - 1, k);
        if s[n - 1].0 == k {
            assert(map_of(s, n).contains_key(k));
        }
    }
}

proof fn lemma_map_of_get(s: Seq<(TagName, Vec<u8>)>, n: int, k: TagName, j: int)
    requires
        0 <= j < n <= s.len(),
        s[j].0 == k,
        forall|i: int| j < i < n ==> (#[trigger] s[i]).0 != k,
    ensures
        map_of(s, n).contains_key(k),
        map_of(s, n)[k] == s[j].1@,
    decreases n,
{
    if j == n - 1 {
    } else {
        lemma_map_of_get(s, n - 1, k, j);
    }
}

proof fn lemma_map_of_update(s: Seq<(TagName, Vec<u8>)>, n: int, j: int, p: (TagName, Vec<u8>))
    requires
        0 <= j < n <= s.len(),
        s[j].0 == p.0,
        forall|i: int| 0 <= i < n && i != j ==> (#[trigger] s[i]).0 != p.0,
    ensures
        map_of(s.update(j, p), n) == map_of(s, n).insert(p.0, p.1@),
    decreases n,
{
    let su = s.update(j, p);
    if j == n - 1 {
        lemma_map_of_prefix(su, s, n - 1);
        assert(map_of(s, n - 1).insert(s[n - 1].0, s[n - 1].1@).insert(p.0, p.1@) =~= map_of(
            s,
            n - 1,
        ).insert(p.0, p.1@));
    } else {
        lemma_map_of_update(s, n - 1, j, p);
        assert(map_of(s, n - 1).insert(p.0, p.1@).insert(s[n - 1].0, s[n - 1].1@) =~= map_of(
            s,
            n - 1,
        ).insert(s[n - 1].0, s[n - 1].1@).insert(p.0, p.1@));
    }
}

/// The tag-to-bytes mapping collected from a tagged-parameter region.
pub struct TaggedParameters {
    entries: Vec<(TagName, Vec<u8>)>,
}

impl View for TaggedParameters {
    type V = Map<TagName, Seq<u8>>;

    closed spec fn view(&self) -> Map<TagName, Seq<u8>> {
        map_of_entries(self.entries@)
    }
}

impl TaggedParameters {
    /// No tag name occurs twice in the backing list.
    pub closed spec fn wf(&self) -> bool {
        keys_unique(self.entries@)
    }

    /// An empty mapping.
    pub fn new() -> (r: TaggedParameters)
        ensures
            r.wf(),
            r@ == Map::<TagName, Seq<u8>>::empty(),
    {
        TaggedParameters { entries: Vec::new() }
    }

    /// Records a tag's value; a tag recorded twice keeps the later value.
    pub fn add(&mut self, tag_number: u8, tag_data: &[u8])
        requires
            old(self).wf(),
        ensures
            final(self).wf(),
            final(self)@ == old(self)@.insert(spec_tag_name(tag_number), tag_data@),
    {
        let tag_name = tag_name_of(tag_number);
        let mut data: Vec<u8> = Vec::new();
        let mut k: usize = 0;
        while k < tag_data.len()
            invariant
                k <= tag_data.len(),
                data@ == tag_data@.subrange(0, k as int),
            decreases tag_data.len() - k,
        {
            data.push(tag_data[k]);
            proof {
                assert(data@ =~= tag_data@.subrange(0, k + 1));
            }
            k = k + 1;
        }
        proof {
            assert(data@ =~= tag_data@);
        }
        let ghost old_entries = self.entries@;
        let mut i: usize = 0;
        while i < self.entries.len()
            invariant
                i <= self.entries.len(),
                self.entries@ == old_entries,
                old_entries == old(self).entries@,
                keys_unique(old_entries),
                data@ == tag_data@,
                tag_name == spec_tag_name(tag_number),
                forall|j: int| 0 <= j < i ==> (#[trigger] old_entries[j]).0 != tag_name,
            decreases self.entries.len() - i,
        {
            if self.entries[i].0 == tag_name {
                self.entries[i] = (tag_name, data);
                proof {
                    let su = self.entries@;
                    let p = su[i as int];
                    assert(su == old_entries.update(i as int, p));
                    assert(p.0 == tag_name && p.1@ == tag_data@);
                    assert forall|a: int| 0 <= a < su.len() implies (#[trigger] su[a]).0
                        == old_entries[a].0 by {}
                    assert(keys_unique(su));
                    lemma_map_of_update(old_entries, old_entries.len() as int, i as int, p);
                }
                return ;
            }
            i = i + 1;
        }
        self.entries.push((tag_name, data));
        proof {
            let s = self.entries@;
            lemma_map_of_prefix(s, old_entries, old_entries.len() as int);
        }
    }

    /// The whole mapping, as an association list without repeated tags.
    pub fn get_all(&self) -> (r: &Vec<(TagName, Vec<u8>)>)
        requires
            self.wf(),
        ensures
            map_of_entries(r@) == self@,
            keys_unique(r@),
    {
        &self.entries
    }

    /// The recorded value of a tag, if the tag was seen.
    pub fn get_bytes(&self, tag_name: TagName) -> (r: Option<Vec<u8>>)
        requires
            self.wf(),
        ensures
            match r {
                Some(v) => self@.contains_key(tag_name) && v@ == self@[tag_name],
                None => !self@.contains_key(tag_name),
            },
    {
        let n = self.entries.len();
        let mut i: usize = 0;
        while i < n
            invariant
                i <= n,
                n == self.entries.len(),
                keys_unique(self.entries@),
                forall|j: int| 0 <= j < i ==> (#[trigger] self.entries@[j]).0 != tag_name,
            decreases n - i,
        {
            if self.entries[i].0 == tag_name {
                let mut out: Vec<u8> = Vec::new();
                let value = &self.entries[i].1;
                let mut k: usize = 0;
                while k < value.len()
                    invariant
                        k <= value.len(),
                        out@ == value@.subrange(0, k as int),
                        value == &self.entries@[i as int].1,
                        i < self.entries.len(),
                    decreases value.len() - k,
                {
                    out.push(value[k]);
                    proof {
                        assert(out@ =~= value@.subrange(0, k + 1));
                    }
                    k = k + 1;
                }
                proof {
                    assert(out@ =~= self.entries@[i as int].1@);
                    lemma_map_of_get(
                        self.entries@,
                        self.entries@.len() as int,
                        tag_name,
                        i as int,
                    );
                }
                return Some(out);
            }
            i = i + 1;
        }
        proof {
            lemma_map_of_contains(self.entries@, self.entries@.len() as int, tag_name);
        }
        None
    }

    /// The raw bytes of the SSID element, if one was seen.
    pub fn ssid(&self) -> (r: Option<Vec<u8>>)
        requires
            self.wf(),
        ensures
            match r {
                Some(v) => self@.contains_key(TagName::SSID) && v@ == self@[TagName::SSID],
                None => !self@.contains_key(TagName::SSID),
            },
    {
        self.get_bytes(TagName::SSID)
    }

    /// The advertised rates, in units of 500 kbit/s: the low seven bits of
    /// each byte of the SupportedRates element (the high bit marks a basic
    /// rate and carries no numeric value).
    pub fn supported_rates(&self) -> (r: Option<Vec<u8>>)
        requires
            self.wf(),
        ensures
            match r {
                Some(v) => {
                    &&& self@.contains_key(TagName::SupportedRates)
                    &&& v@.len() == self@[TagName::SupportedRates].len()
                    &&& forall|j: int|
                        0 <= j < v@.len() ==> v@[j] == self@[TagName::SupportedRates][j] & 0x7f
                },
                None => !self@.contains_key(TagName::SupportedRates),
            },
    {
        match self.get_bytes(TagName::SupportedRates) {
            None => None,
            Some(raw) => {
                let mut rates: Vec<u8> = Vec::new();
                let mut k: usize = 0;
                while k < raw.len()
                    invariant
                        k <= raw.len(),
                        rates@.len() == k,
                        forall|j: int| 0 <= j < k ==> rates@[j] == raw@[j] & 0x7f,
                    decreases raw.len() - k,
                {
                    rates.push(raw[k] & 0x7f);
                    k = k + 1;
                }
                Some(rates)
            },
        }
    }

    /// The channel: the first byte of the DSParameter element, or, for 5 GHz
    /// beacons that omit it, of the HTInformation element.  A present but
    /// empty element yields nothing rather than reading past its end.
    pub fn channel(&self) -> (r: Option<u8>)
        requires
            self.wf(),
        ensures
            ({
                let m = self@;
                if m.contains_key(TagName::DSParameter) && m[TagName::DSParameter].len() > 0 {
                    r == Some(m[TagName::DSParameter][0])
                } else if m.contains_key(TagName::HTInformation) && m[TagName::HTInformation].len()
                    > 0 && !(m.contains_key(TagName::DSParameter) && m[TagName::DSParameter].len()
                    > 0) {
                    r == Some(m[TagName::HTInformation][0])
                } else {
                    r is None
                }
            }),
    {
        match self.get_bytes(TagName::DSParameter) {
            Some(v) => {
                if v.len() > 0 {
                    return Some(v[0]);
                }
            },
            None => {},
        }
        // 5GHz
        match self.get_bytes(TagName::HTInformation) {
            Some(v) => {
                if v.len() > 0 {
                    return Some(v[0]);
                }
            },
            None => {},
        }
        None
    }

    /// The decoded RSN element, if one was seen and is long enough to hold
    /// its version field.  A version other than 1 is kept as `Reserved`
    /// without further decoding.
    pub fn rsn(&self) -> (r: Option<RSNVersion>)
        requires
            self.wf(),
        ensures
            ({
                let m = self@;
                if m.contains_key(TagName::RSNInformation) && m[TagName::RSNInformation].len()
                    >= 2 {
                    let v = m[TagName::RSNInformation];
                    if u16_le(v, 0) == 1 {
                        r matches Some(RSNVersion::Standard(rsn)) && rsn_wf(
                            rsn,
                            v.subrange(2, v.len() as int),
                        )
                    } else {
                        r == Some(RSNVersion::Reserved(u16_le(v, 0)))
                    }
                } else {
                    r is None
                }
            }),
    {
        match self.get_bytes(TagName::RSNInformation) {
            None => None,
            Some(v) => {
                if v.len() < 2 {
                    return None;
                }
                let version = crate::wire::read_u16_at(&v, 0);
                if version == 1 {
                    let body = crate::wire::copy_bytes_from(&v, 2);
                    Some(RSNVersion::Standard(make_std_rsn(&body)))
                } else {
                    Some(RSNVersion::Reserved(version))
                }
            },
        }
    }
}

// ---------------------------------------------------------------------------
// The region walker.
// ---------------------------------------------------------------------------
/// The map read by walking the records from `i` to the end of the region,
/// on top of what was already collected in `acc`; nothing, if a record
/// header or a declared value reaches past the end.
pub open spec fn walk_from(b: Seq<u8>, i: int, acc: Map<TagName, Seq<u8>>) -> Option<
    Map<TagName, Seq<u8>>,
>
    decreases b.len() - i,
{
    if i >= b.len() {
        Some(acc)
    } else if i + 2 > b.len() {
        None
    } else {
        let l = b[i + 1] as int;
        if i + 2 + l > b.len() {
            None
        } else {
            walk_from(b, i + 2 + l, acc.insert(spec_tag_name(b[i]), b.subrange(i + 2, i + 2 + l)))
        }
    }
}

/// The byte count that the first failing record would have needed.
pub open spec fn walk_overflow_required(b: Seq<u8>, i: int) -> int
    decreases b.len() - i,
{
    if i >= b.len() {
        0
    } else if i + 2 > b.len() {
        i + 2
    } else {
        let l = b[i + 1] as int;
        if i + 2 + l > b.len() {
            i + 2 + l
        } else {
            walk_overflow_required(b, i + 2 + l)
        }
    }
}

/// A record whose declared length reaches past the end of the region makes
/// the whole walk fail, wherever the walk started from.
pub proof fn lemma_walk_overflow(b: Seq<u8>, i: int, acc: Map<TagName, Seq<u8>>)
    requires
        0 <= i,
        i + 2 <= b.len(),
        i + 2 + b[i + 1] > b.len(),
    ensures
        walk_from(b, i, acc) is None,
{
}

/// Walks the tagged-parameter region of `b` that starts at `start`.
pub(crate) fn parse_tagged(b: &Vec<u8>, start: usize) -> (r: Result<
    TaggedParameters,
    OverflowError,
>)
    requires
        start <= b.len(),
        b@.len() + 260 <= usize::MAX,
    ensures
        match r {
            Ok(tp) => tp.wf() && walk_from(b@, start as int, Map::empty()) == Some(tp@),
            Err(e) => {
                &&& walk_from(b@, start as int, Map::empty()) is None
                &&& e.required == walk_overflow_required(b@, start as int)
                &&& e.available == b@.len()
            },
        },
{
    let mut tagged_parameters = TaggedParameters::new();
    let mut i = start;
    while i < b.len()
        invariant
            i <= b.len(),
            b@.len() + 260 <= usize::MAX,
            tagged_parameters.wf(),
            walk_from(b@, start as int, Map::empty()) == walk_from(b@, i as int, tagged_parameters@),
            walk_overflow_required(b@, start as int) == walk_overflow_required(b@, i as int),
        decreases b.len() - i,
    {
        if b.len() - i < 2 {
            return Err(OverflowError::new(i + 2, b.len()));
        }
        let tag_number = b[i];
        let tag_length = b[i + 1] as usize;
        if tag_length > b.len() - (i + 2) {
            return Err(OverflowError::new(i + 2 + tag_length, b.len()));
        }
        tagged_parameters.add(tag_number, &b[i + 2..i + 2 + tag_length]);
        i = i + 2 + tag_length;
    }
    Ok(tagged_parameters)
}

} // verus!
