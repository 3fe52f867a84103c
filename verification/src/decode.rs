//! Decoding of the raw 64-bit power-state status register value.
//!
//! Three unsigned bit-fields are packed into the low 22 bits: a voltage
//! identifier (vid, bits 14..=21), a frequency divisor identifier (did,
//! bits 8..=13) and a frequency identifier (fid, bits 0..=7).  The decoder
//! is total and pure: the physical quantities are exact rationals, kept
//! exact here as microvolts and a numerator/denominator pair in megahertz,
//! so that no rounding hides in the library.

use vstd::prelude::*;

verus! {

/// The three bit-fields packed in one raw register value.
#[derive(Clone, Copy, Debug, PartialEq, Eq, Structural)]
pub struct Fields {
    pub vid: u64,
    pub did: u64,
    pub fid: u64,
}

/// A clock frequency in megahertz, as the exact rational num / den.
/// The denominator is the raw divisor identifier and is never zero.
#[derive(Clone, Copy, Debug, PartialEq, Eq, Structural)]
pub struct FreqMhz {
    pub num: u64,
    pub den: u64,
}

/// The physical quantities one register value decodes to.  The voltage is
/// exact in microvolts; vendor scaling can place it outside the physical
/// range, and the decoder does not clamp it.  The frequency is `None`
/// exactly when the divisor identifier is zero, where the vendor formula
/// divides by zero.
#[derive(Clone, Copy, Debug, PartialEq, Eq)]
pub struct DecodedState {
    pub fields: Fields,
    pub voltage_uv: i64,
    pub freq: Option<FreqMhz>,
}

pub open spec fn spec_vid(v: u64) -> u64 {
    (v >> 14) & 0xff
}

pub open spec fn spec_did(v: u64) -> u64 {
    (v >> 8) & 0x3f
}

pub open spec fn spec_fid(v: u64) -> u64 {
    v & 0xff
}

pub open spec fn spec_fields(v: u64) -> Fields {
    Fields { vid: spec_vid(v), did: spec_did(v), fid: spec_fid(v) }
}

/// Volts = 1.55 - vid * 0.00625, held exact in microvolts.
pub open spec fn spec_voltage_uv(vid: u64) -> int {
    1_550_000 - vid * 6250
}

/// GHz = 25 * fid / (12.5 * did) / 10, which reduces to the exact rational
/// 200 * fid / did in megahertz; undefined when did is zero.
pub open spec fn spec_freq(fid: u64, did: u64) -> Option<FreqMhz> {
    if did == 0 {
        None
    } else {
        Some(FreqMhz { num: (200 * fid) as u64, den: did })
    }
}

pub open spec fn spec_decode(v: u64) -> DecodedState {
    DecodedState {
        fields: spec_fields(v),
        voltage_uv: spec_voltage_uv(spec_vid(v)) as i64,
        freq: spec_freq(spec_fid(v), spec_did(v)),
    }
}

/// Extracts the three packed bit-fields from a raw register value.
pub fn extract_fields(v: u64) -> (f: Fields)
    ensures
        f == spec_fields(v),
        f.vid < 256,
        f.did < 64,
        f.fid < 256,
{
    proof {
        assert((v >> 14) & 0xff < 256 && (v >> 8) & 0x3f < 64 && v & 0xff < 256)
            by (bit_vector);
    }
    Fields { vid: (v >> 14) & 0xff, did: (v >> 8) & 0x3f, fid: v & 0xff }
}

/// Core voltage in microvolts for a voltage identifier.  The result is
/// negative for identifiers large enough to push the vendor formula below
/// zero; no clamping is applied.
pub fn voltage_microvolts(vid: u64) -> (r: i64)
    requires
        vid < 256,
    ensures
        r == spec_voltage_uv(vid),
{
    1_550_000i64 - (vid as i64) * 6250
}

/// Clock frequency in megahertz for a frequency identifier and a divisor
/// identifier; `None` exactly when the divisor identifier is zero.
pub fn frequency_mhz(fid: u64, did: u64) -> (r: Option<FreqMhz>)
    requires
        fid < 256,
    ensures
        r == spec_freq(fid, did),
{
    if did == 0 {
        None
    } else {
        Some(FreqMhz { num: 200 * fid, den: did })
    }
}

/// Decodes one raw register value into its physical quantities.
pub fn decode(v: u64) -> (d: DecodedState)
    ensures
        d == spec_decode(v),
{
    let f = extract_fields(v);
    let voltage_uv = voltage_microvolts(f.vid);
    let freq = frequency_mhz(f.fid, f.did);
    DecodedState { fields: f, voltage_uv, freq }
}

/// Decodes a whole run of register values; the output holds one entry for
/// each input, at the same index, so the report order is the order of the
/// raw values, ascending core index.
pub fn decode_all(vals: &Vec<u64>) -> (r: Vec<DecodedState>)
    ensures
        r@.len() == vals@.len(),
        forall|i: int| 0 <= i < vals@.len() ==> r@[i] == spec_decode(vals@[i]),
{
    let mut r: Vec<DecodedState> = Vec::new();
    let n = vals.len();
    for c in 0..n
        invariant
            n == vals@.len(),
            r@.len() == c,
            forall|i: int| 0 <= i < c ==> r@[i] == spec_decode(vals@[i]),
    {
        let d = decode(vals[c]);
        r.push(d);
    }
    r
}

/// A zero frequency identifier decodes to frequency zero, whatever the
/// nonzero divisor identifier.
pub proof fn lemma_zero_fid_means_zero_frequency(did: u64)
    requires
        did != 0,
    ensures
        spec_freq(0, did) == Some((FreqMhz { num: 0, den: did })),
{
}

/// The decoded frequency is defined exactly when the divisor identifier is
/// nonzero: the vendor formula's division by zero is made an explicit
/// absence rather than an infinity or a NaN.
pub proof fn lemma_frequency_defined_iff_nonzero_divisor(v: u64)
    ensures
        spec_decode(v).freq is Some <==> spec_did(v) != 0,
{
}

/// The decoder is a pure projection of bits 0 to 21 of the register value:
/// two raw values that agree on those bits decode to the same state, so the
/// result is deterministic and independent of every higher bit.
pub proof fn lemma_decode_reads_only_low_bits(a: u64, b: u64)
    requires
        a & 0x3fffff == b & 0x3fffff,
    ensures
        spec_decode(a) == spec_decode(b),
{
    assert((a >> 14) & 0xff == (b >> 14) & 0xff && (a >> 8) & 0x3f == (b >> 8) & 0x3f
        && a & 0xff == b & 0xff) by (bit_vector)
        requires
            a & 0x3fffff == b & 0x3fffff,
    ;
}

} // verus!
