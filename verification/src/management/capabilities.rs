//! The 16-bit Capabilities Information field of management frames.

use vstd::prelude::*;

verus! {

broadcast use vstd::array::group_array_axioms;

/// The decoded Capabilities Information field.
#[derive(Debug, PartialEq)]
pub struct CapabilitiesInfo {
    /// 0: Transmitter is a STA
    /// 1: Transmitter is an AP
    pub ess_capabilities: bool,
    /// 0: Transmitter belongs to a BSS
    /// 1: Transmitter belongs to an IBSS
    pub ibss_status: bool,
    /// CF-Pollable bits, one from each byte of the field.
    pub cfp_partitipation_capabilities: u8,
    /// 0: AP/STA cannot support WEP
    /// 1: AP/STA can support WEP
    pub privacy: bool,
    /// 0: Not Allowed
    pub short_preamble: bool,
    /// 0: Not Allowed
    pub pbcc: bool,
    /// 0: Not in use
    pub channel_agility: bool,
    /// 0: Not Implemented
    pub spectrum_management: bool,
    /// 1: In use
    pub short_slot_time: bool,
    /// 0: Not Implemented
    pub automatic_power_save_delivery: bool,
    /// 0: Not Implemented
    pub radio_measurement: bool,
    /// 0: Not Implemented
    pub dsss_ofdm: bool,
    /// 0: Not Implemented
    pub delayed_block_ack: bool,
    /// 0: Not Implemented
    pub immediate_block_ack: bool,
}

/// Meaning of the two capability bytes, bit for bit.
pub open spec fn spec_capabilities(b1: u8, b2: u8) -> CapabilitiesInfo {
    CapabilitiesInfo {
        ess_capabilities: b1 & 0x01 != 0,
        ibss_status: b1 & 0x02 != 0,
        cfp_partitipation_capabilities: ((b1 & 0x0c) >> 2) | ((b2 & 0x02) << 1),
        privacy: b1 & 0x10 != 0,
        short_preamble: b1 & 0x20 != 0,
        pbcc: b1 & 0x40 != 0,
        channel_agility: b1 & 0x80 != 0,
        spectrum_management: b2 & 0x01 != 0,
        short_slot_time: b2 & 0x04 != 0,
        automatic_power_save_delivery: b2 & 0x08 != 0,
        radio_measurement: b2 & 0x10 != 0,
        dsss_ofdm: b2 & 0x20 != 0,
        delayed_block_ack: b2 & 0x40 != 0,
        immediate_block_ack: b2 & 0x80 != 0,
    }
}

impl CapabilitiesInfo {
    /// Decode from the field's two bytes, first byte first.
    pub fn from_bytes(bytes: &[u8]) -> (r: CapabilitiesInfo)
        requires
            bytes@.len() >= 2,
        ensures
            r == spec_capabilities(bytes@[0], bytes@[1]),
    {
        let b1 = bytes[0];
        let b2 = bytes[1];
        CapabilitiesInfo {
            ess_capabilities: b1 & 0x01 != 0,
            ibss_status: b1 & 0x02 != 0,
            cfp_partitipation_capabilities: ((b1 & 0x0c) >> 2) | ((b2 & 0x02) << 1),
            privacy: b1 & 0x10 != 0,
            short_preamble: b1 & 0x20 != 0,
            pbcc: b1 & 0x40 != 0,
            channel_agility: b1 & 0x80 != 0,
            spectrum_management: b2 & 0x01 != 0,
            short_slot_time: b2 & 0x04 != 0,
            automatic_power_save_delivery: b2 & 0x08 != 0,
            radio_measurement: b2 & 0x10 != 0,
            dsss_ofdm: b2 & 0x20 != 0,
            delayed_block_ack: b2 & 0x40 != 0,
            immediate_block_ack: b2 & 0x80 != 0,
        }
    }
}

/// Reads the two capability bytes at `i` and decodes them.
pub(crate) fn capabilities_at(b: &Vec<u8>, i: usize) -> (r: CapabilitiesInfo)
    requires
        i + 2 <= b.len(),
    ensures
        r == spec_capabilities(b@[i as int], b@[i as int + 1]),
{
    let field: [u8; 2] = [b[i], b[i + 1]];
    CapabilitiesInfo::from_bytes(field.as_slice())
}

} // verus!
