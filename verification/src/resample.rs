//! Conversion between the hardware sample rate and the wire sample rate.
//!
//! Both directions are deliberately naive: capture keeps every second
//! hardware sample, playback repeats every wire sample twice.

use vstd::prelude::*;

verus! {

/// Sample rate of the audio hardware, in hertz.
pub const HARDWARE_SAMPLE_RATE: u32 = 48000;

/// Sample rate of the audio that travels over the wire, in hertz.
pub const WIRE_SAMPLE_RATE: u32 = 24000;

/// Number of hardware samples that stand for one wire sample.
pub const RATE_FACTOR: usize = 2;

/// Number of samples that remain of `len` samples when every `factor`-th one
/// is kept, the first included.
pub open spec fn decimated_len(len: int, factor: int) -> int {
    (len + factor - 1) / factor
}

/// Every `factor`-th sample of `samples`, starting with the first.
pub open spec fn decimated<T>(samples: Seq<T>, factor: int) -> Seq<T> {
    Seq::new(decimated_len(samples.len() as int, factor) as nat, |i: int| samples[i * factor])
}

/// Each sample of `samples` repeated `factor` times in a row.
pub open spec fn upsampled<T>(samples: Seq<T>, factor: int) -> Seq<T> {
    Seq::new((samples.len() * factor) as nat, |i: int| samples[i / factor])
}

proof fn lemma_decimated_len_step(len: int, factor: int, kept: int)
    requires
        factor > 0,
        kept >= 0,
        kept * factor < len,
    ensures
        kept < decimated_len(len, factor),
        len - kept * factor <= factor ==> decimated_len(len, factor) == kept + 1,
        (kept + 1) * factor == kept * factor + factor,
{
    assert((kept + 1) * factor == kept * factor + factor) by (nonlinear_arith);
    assert(kept < (len + factor - 1) / factor) by (nonlinear_arith)
        requires
            factor > 0,
            kept >= 0,
            kept * factor < len,
    ;
    if len - kept * factor <= factor {
        assert((len + factor - 1) / factor == kept + 1) by (nonlinear_arith)
            requires
                factor > 0,
                kept >= 0,
                kept * factor < len,
                len - kept * factor <= factor,
        ;
    }
}

proof fn lemma_decimated_len_zero(factor: int)
    requires
        factor > 0,
    ensures
        decimated_len(0, factor) == 0,
{
    assert((0 + factor - 1) / factor == 0) by (nonlinear_arith)
        requires
            factor > 0,
    ;
}

/// Reduces the sample rate by keeping every `factor`-th sample, the first
/// included. No filter is applied before the samples are dropped.
pub fn downsample_decimate<T: Copy>(samples: &[T], factor: usize) -> (out: Vec<T>)
    requires
        factor > 0,
    ensures
        out@ == decimated(samples@, factor as int),
{
    let mut out: Vec<T> = Vec::new();
    let mut i: usize = 0;
    let len: usize = samples.len();
    proof {
        lemma_decimated_len_zero(factor as int);
        assert(0 * (factor as int) == 0);
    }
    while i < len
        invariant
            factor > 0,
            len == samples@.len(),
            i <= len,
            i < len ==> i == out@.len() * factor,
            i == len ==> out@.len() == decimated_len(len as int, factor as int),
            out@.len() <= decimated_len(len as int, factor as int),
            forall|k: int| 0 <= k < out@.len() ==> out@[k] == #[trigger] decimated(samples@, factor as int)[k],
        decreases len - i,
    {
        let ghost kept = out@.len() as int;
        proof {
            lemma_decimated_len_step(len as int, factor as int, kept);
        }
        out.push(samples[i]);
        if len - i <= factor {
            i = len;
        } else {
            i = i + factor;
        }
    }
    proof {
        assert(out@ =~= decimated(samples@, factor as int));
    }
    out
}

/// The sample that playback emits at `position` of the upsampled stream:
/// wire sample `position / factor`, or nothing once the stream is exhausted.
pub fn upsample_duplicate<T: Copy>(samples: &[T], position: usize, factor: usize) -> (sample: Option<T>)
    requires
        factor > 0,
    ensures
        sample == if position < samples@.len() * factor {
            Some(upsampled(samples@, factor as int)[position as int])
        } else {
            None
        },
{
    let index: usize = position / factor;
    proof {
        assert((position < samples@.len() * factor) <==> (position as int / factor as int) < samples@.len())
            by (nonlinear_arith)
            requires
                factor > 0,
        ;
    }
    if index < samples.len() {
        Some(samples[index])
    } else {
        None
    }
}

/// Keeping every `factor`-th sample of a signal in which each sample stands
/// `factor` times gives the signal back.
pub proof fn lemma_decimate_upsampled<T>(samples: Seq<T>, factor: int)
    requires
        factor > 0,
    ensures
        decimated(upsampled(samples, factor), factor) == samples,
{
    let up = upsampled(samples, factor);
    let len = samples.len() as int;
    assert(up.len() == len * factor) by (nonlinear_arith)
        requires
            up.len() == (len * factor) as nat,
            len >= 0,
            factor > 0,
    ;
    assert((len * factor + factor - 1) / factor == len) by (nonlinear_arith)
        requires
            len >= 0,
            factor > 0,
    ;
    assert forall|i: int| 0 <= i < len implies decimated(up, factor)[i] == samples[i] by {
        assert(0 <= i * factor < len * factor && (i * factor) / factor == i) by (nonlinear_arith)
            requires
                0 <= i < len,
                factor > 0,
        ;
    }
    assert(decimated(up, factor) =~= samples);
}

} // verus!
