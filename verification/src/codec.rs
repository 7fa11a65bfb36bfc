//! Wire codec: a stateless, lossy transform between audio sample buffers and
//! the byte payload of one datagram.
//!
//! Samples are fixed-point integers: a sample `s` stands for the amplitude
//! `s / SAMPLE_ONE`, so the nominal device range `[-1.0, 1.0]` is
//! `[-SAMPLE_ONE, SAMPLE_ONE]`.  Encoding saturates a sample into that range,
//! quantizes it to one of `2 * PEAK_SCALE + 1` levels and biases the level
//! into a single unsigned byte; decoding maps the byte back to the centre of
//! its quantization step.  The transform is lossy and never fails.

use vstd::arithmetic::div_mod::{lemma_fundamental_div_mod, lemma_mod_bound};
use vstd::prelude::*;

verus! {

/// Quantization levels on each side of zero: a full-scale sample maps to
/// this many steps above (or below) the bias byte.
pub const PEAK_SCALE: i32 = 127;

/// Fixed-point units in one quantization step.
pub const SAMPLE_UNIT: i32 = 256;

/// Full-scale amplitude in fixed-point units.
pub const SAMPLE_ONE: i32 = 127 * 256;

/// Offset added to a signed quantization level so that it fits a byte.
pub const BYTE_BIAS: i32 = 128;

/// Bytes each sample occupies on the wire.
pub const BYTES_PER_SAMPLE: usize = 1;

/// Saturate a sample into the nominal input range.
pub open spec fn clamp_spec(s: int) -> int {
    if s > SAMPLE_ONE {
        SAMPLE_ONE as int
    } else if s < -(SAMPLE_ONE as int) {
        -(SAMPLE_ONE as int)
    } else {
        s
    }
}

/// The signed quantization level of a sample: the clamped sample rounded
/// down to a multiple of `SAMPLE_UNIT`, counted in steps.  Always lies in
/// `[-PEAK_SCALE, PEAK_SCALE]`.
pub open spec fn quantize_spec(s: int) -> int {
    (clamp_spec(s) + SAMPLE_ONE + PEAK_SCALE) / (SAMPLE_UNIT as int) - PEAK_SCALE
}

/// The wire byte of one sample.
pub open spec fn encode_sample_spec(s: int) -> u8 {
    (quantize_spec(s) + BYTE_BIAS) as u8
}

/// The sample reconstructed from one wire byte.
pub open spec fn decode_sample_spec(b: u8) -> i32 {
    ((b - BYTE_BIAS) * SAMPLE_UNIT) as i32
}

/// The quantization level lies within the byte's reach.
pub proof fn lemma_quantize_in_range(s: int)
    ensures
        -(PEAK_SCALE as int) <= quantize_spec(s) <= PEAK_SCALE as int,
{
    let c = clamp_spec(s);
    let t = c + SAMPLE_ONE + PEAK_SCALE;
    assert(PEAK_SCALE <= t <= 2 * SAMPLE_ONE + PEAK_SCALE);
    lemma_fundamental_div_mod(t, SAMPLE_UNIT as int);
    lemma_mod_bound(t, SAMPLE_UNIT as int);
}

/// Encode one sample: saturate, quantize, bias into a byte.
pub fn encode_sample(s: i32) -> (b: u8)
    ensures
        b == encode_sample_spec(s as int),
{
    let c: i32 = if s > SAMPLE_ONE {
        SAMPLE_ONE
    } else if s < -SAMPLE_ONE {
        -SAMPLE_ONE
    } else {
        s
    };
    let t: u32 = (c + SAMPLE_ONE + PEAK_SCALE) as u32;
    let q: u32 = t / (SAMPLE_UNIT as u32);
    proof {
        lemma_fundamental_div_mod(t as int, SAMPLE_UNIT as int);
        lemma_mod_bound(t as int, SAMPLE_UNIT as int);
    }
    let level: i32 = (q as i32) - PEAK_SCALE;
    (level + BYTE_BIAS) as u8
}

/// Decode one wire byte back to a fixed-point sample.
pub fn decode_sample(b: u8) -> (s: i32)
    ensures
        s == decode_sample_spec(b),
{
    ((b as i32) - BYTE_BIAS) * SAMPLE_UNIT
}

/// The wire bytes of a whole buffer, sample by sample.
pub open spec fn wire_of(samples: Seq<i32>) -> Seq<u8> {
    samples.map_values(|s: i32| encode_sample_spec(s as int))
}

/// The samples reconstructed from a whole payload, byte by byte.
pub open spec fn samples_of(payload: Seq<u8>) -> Seq<i32> {
    payload.map_values(|b: u8| decode_sample_spec(b))
}

/// Encode a buffer into the payload of one datagram.  The payload holds
/// exactly `BYTES_PER_SAMPLE` bytes per sample.
pub fn encode(buffer: &Vec<i32>) -> (payload: Vec<u8>)
    ensures
        payload@ == wire_of(buffer@),
        payload@.len() == buffer@.len() * BYTES_PER_SAMPLE,
{
    let mut payload: Vec<u8> = Vec::new();
    let mut i: usize = 0;
    while i < buffer.len()
        invariant
            i <= buffer.len(),
            payload@ == wire_of(buffer@).take(i as int),
        decreases buffer.len() - i,
    {
        payload.push(encode_sample(buffer[i]));
        proof {
            assert(payload@ =~= wire_of(buffer@).take(i + 1));
        }
        i = i + 1;
    }
    proof {
        assert(payload@ =~= wire_of(buffer@));
    }
    payload
}

/// Decode one datagram payload into a buffer of samples.
pub fn decode(payload: &Vec<u8>) -> (buffer: Vec<i32>)
    ensures
        buffer@ == samples_of(payload@),
        buffer@.len() == payload@.len(),
{
    let mut buffer: Vec<i32> = Vec::new();
    let mut i: usize = 0;
    while i < payload.len()
        invariant
            i <= payload.len(),
            buffer@ == samples_of(payload@).take(i as int),
        decreases payload.len() - i,
    {
        buffer.push(decode_sample(payload[i]));
        proof {
            assert(buffer@ =~= samples_of(payload@).take(i + 1));
        }
        i = i + 1;
    }
    proof {
        assert(buffer@ =~= samples_of(payload@));
    }
    buffer
}

/// Quantization round-trip bound: for every sample in the nominal input
/// range, decoding its encoding lands within one quantization step of the
/// original sample.  Equality is not promised: the codec is lossy.
pub proof fn lemma_quantization_round_trip(s: i32)
    requires
        -SAMPLE_ONE <= s <= SAMPLE_ONE,
    ensures
        -(SAMPLE_UNIT as int) <= decode_sample_spec(encode_sample_spec(s as int)) - s,
        decode_sample_spec(encode_sample_spec(s as int)) - s <= SAMPLE_UNIT as int,
{
    let t = s + SAMPLE_ONE + PEAK_SCALE;
    lemma_fundamental_div_mod(t, SAMPLE_UNIT as int);
    lemma_mod_bound(t, SAMPLE_UNIT as int);
    lemma_quantize_in_range(s as int);
}

} // verus!
