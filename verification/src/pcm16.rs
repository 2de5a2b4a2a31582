//! PCM16: 16-bit signed linear samples, two bytes each, low byte first.

use vstd::prelude::*;

verus! {

/// Largest magnitude of a sample that stands for a signal within full scale.
pub const FULL_SCALE: i16 = 32767;

/// The sample that stands for silence.
pub const SILENCE: i16 = 0;

/// The 16-bit two's complement of `sample`, as a number in `0..65536`.
pub open spec fn twos_complement(sample: i16) -> int {
    if sample >= 0 {
        sample as int
    } else {
        sample + 65536
    }
}

/// First byte of a sample on the wire: the low eight bits.
pub open spec fn low_byte(sample: i16) -> u8 {
    (twos_complement(sample) % 256) as u8
}

/// Second byte of a sample on the wire: the high eight bits.
pub open spec fn high_byte(sample: i16) -> u8 {
    (twos_complement(sample) / 256) as u8
}

/// The sample whose two bytes on the wire are `low`, then `high`.
pub open spec fn sample_of_bytes(low: u8, high: u8) -> i16 {
    let unsigned = low + 256 * high;
    if unsigned < 32768 {
        unsigned as i16
    } else {
        (unsigned - 65536) as i16
    }
}

/// The bytes of `samples` on the wire: two per sample, low byte first.
pub open spec fn pcm16_bytes(samples: Seq<i16>) -> Seq<u8> {
    Seq::new(
        2 * samples.len(),
        |i: int|
            if i % 2 == 0 {
                low_byte(samples[i / 2])
            } else {
                high_byte(samples[i / 2])
            },
    )
}

/// The samples that `bytes` hold: one per complete pair of bytes. A single
/// byte left over at the end holds no sample.
pub open spec fn pcm16_samples(bytes: Seq<u8>) -> Seq<i16> {
    Seq::new(bytes.len() / 2, |i: int| sample_of_bytes(bytes[2 * i], bytes[2 * i + 1]))
}

/// Encodes samples as little-endian PCM16 bytes.
pub fn pcm16_encode(samples: &[i16]) -> (bytes: Vec<u8>)
    ensures
        bytes@ == pcm16_bytes(samples@),
{
    let mut bytes: Vec<u8> = Vec::new();
    let mut i: usize = 0;
    while i < samples.len()
        invariant
            i <= samples@.len(),
            bytes@.len() == 2 * i,
            forall|k: int| 0 <= k < bytes@.len() ==> bytes@[k] == #[trigger] pcm16_bytes(samples@)[k],
        decreases samples@.len() - i,
    {
        let sample: i16 = samples[i];
        let unsigned: u16 = if sample >= 0 {
            sample as u16
        } else {
            (sample as i32 + 65536) as u16
        };
        bytes.push((unsigned % 256) as u8);
        bytes.push((unsigned / 256) as u8);
        i = i + 1;
    }
    proof {
        assert(bytes@ =~= pcm16_bytes(samples@));
    }
    bytes
}

/// Decodes little-endian PCM16 bytes into samples. A single byte left over
/// at the end is ignored.
pub fn pcm16_decode(bytes: &[u8]) -> (samples: Vec<i16>)
    ensures
        samples@ == pcm16_samples(bytes@),
{
    let mut samples: Vec<i16> = Vec::new();
    let count: usize = bytes.len() / 2;
    let mut i: usize = 0;
    while i < count
        invariant
            count == bytes@.len() / 2,
            bytes@.len() <= usize::MAX,
            i <= count,
            samples@.len() == i,
            forall|k: int| 0 <= k < samples@.len() ==> samples@[k] == #[trigger] pcm16_samples(bytes@)[k],
        decreases count - i,
    {
        let low: u8 = bytes[2 * i];
        let high: u8 = bytes[2 * i + 1];
        let unsigned: u32 = low as u32 + 256 * (high as u32);
        let sample: i16 = if unsigned < 32768 {
            unsigned as i16
        } else {
            (unsigned as i32 - 65536) as i16
        };
        samples.push(sample);
        i = i + 1;
    }
    proof {
        assert(samples@ =~= pcm16_samples(bytes@));
    }
    samples
}

/// Decoding what was encoded gives the samples back, each of them exactly.
pub proof fn lemma_pcm16_decode_encode(samples: Seq<i16>)
    ensures
        pcm16_samples(pcm16_bytes(samples)) == samples,
{
    let bytes = pcm16_bytes(samples);
    assert(bytes.len() / 2 == samples.len());
    assert forall|i: int| 0 <= i < samples.len() implies pcm16_samples(bytes)[i] == samples[i] by {
        assert(bytes[2 * i] == low_byte(samples[(2 * i) / 2]));
        assert(bytes[2 * i + 1] == high_byte(samples[(2 * i + 1) / 2]));
    }
    assert(pcm16_samples(bytes) =~= samples);
}

/// Encoding what was decoded gives the bytes back, up to the single byte
/// that decoding leaves out when the length is odd.
pub proof fn lemma_pcm16_encode_decode(bytes: Seq<u8>)
    ensures
        pcm16_bytes(pcm16_samples(bytes)) == bytes.subrange(0, 2 * (bytes.len() as int / 2)),
{
    let samples = pcm16_samples(bytes);
    let again = pcm16_bytes(samples);
    let whole = bytes.subrange(0, 2 * (bytes.len() as int / 2));
    assert forall|k: int| 0 <= k < again.len() implies again[k] == whole[k] by {
        let i = k / 2;
        assert(samples[i] == sample_of_bytes(bytes[2 * i], bytes[2 * i + 1]));
    }
    assert(again =~= whole);
}

} // verus!
