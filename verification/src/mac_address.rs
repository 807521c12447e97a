//! A six-byte IEEE MAC address, held as a plain octet array.
//!
//! Text formatting and parsing of addresses is left to the callers; the
//! library itself only moves the raw octets around.

use vstd::prelude::*;

verus! {

broadcast use vstd::array::group_array_axioms;

/// A 48-bit MAC address.
#[derive(Debug, Clone, Copy)]
pub struct MacAddress {
    bytes: [u8; 6],
}

impl View for MacAddress {
    type V = Seq<u8>;

    closed spec fn view(&self) -> Seq<u8> {
        self.bytes@
    }
}

impl MacAddress {
    /// The six octets of the address, in transmission order.
    pub fn to_array(&self) -> (r: [u8; 6])
        ensures
            r@ == self@,
    {
        self.bytes
    }
}

impl From<[u8; 6]> for MacAddress {
    fn from(bytes: [u8; 6]) -> (r: MacAddress) {
        MacAddress { bytes }
    }
}

impl vstd::std_specs::convert::FromSpecImpl<[u8; 6]> for MacAddress {
    open spec fn obeys_from_spec() -> bool {
        true
    }

    closed spec fn from_spec(bytes: [u8; 6]) -> MacAddress {
        MacAddress { bytes }
    }
}

impl PartialEq for MacAddress {
    fn eq(&self, other: &Self) -> (r: bool) {
        let r = self.bytes[0] == other.bytes[0] && self.bytes[1] == other.bytes[1]
            && self.bytes[2] == other.bytes[2] && self.bytes[3] == other.bytes[3]
            && self.bytes[4] == other.bytes[4] && self.bytes[5] == other.bytes[5];
        proof {
            if r {
                assert(self.bytes@ =~= other.bytes@);
            }
        }
        r
    }
}

impl vstd::std_specs::cmp::PartialEqSpecImpl for MacAddress {
    open spec fn obeys_eq_spec() -> bool {
        true
    }

    open spec fn eq_spec(&self, other: &MacAddress) -> bool {
        self@ == other@
    }
}

/// `MacAddress::from` keeps the octets it is given.
pub proof fn lemma_mac_address_from(bytes: [u8; 6])
    ensures
        <MacAddress as vstd::std_specs::convert::FromSpec<[u8; 6]>>::from_spec(bytes)@ == bytes@,
{
}

} // verus!
