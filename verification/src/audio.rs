//! Audio preprocessing: duration accounting and silence padding.
//!
//! Every transcription request passes through `prepare`: it computes the
//! original duration of the buffer (kept as a sample count and a rate, so the
//! caller can report seconds), flags buffers longer than the safety
//! threshold, and pads the buffer with silence on both sides.

use vstd::prelude::*;

verus! {

/// The padding run on each side of the buffer, in samples: `0.9` seconds of
/// audio at the given rate, rounded to the nearest whole sample.
pub open spec fn spec_pad_len(sample_rate: u32) -> int {
    (9 * (sample_rate as int) + 5) / 10
}

/// Whether a buffer of `n_samples` samples at `sample_rate` Hz lasts longer
/// than the 30-second safety threshold, i.e. `n_samples / sample_rate > 30`
/// exactly, as rationals.
pub open spec fn spec_exceeds_threshold(n_samples: int, sample_rate: int) -> bool {
    n_samples > 30 * sample_rate
}

/// `n` samples of silence, every one the zero sample `z`.
pub open spec fn spec_silence<T>(n: int, z: T) -> Seq<T> {
    Seq::new(n as nat, |i: int| z)
}

/// A sample buffer padded for the inference engine. The original (unpadded)
/// duration is `original_len / sample_rate` seconds; it is kept here and is
/// never recomputed from the padded buffer.
pub struct PreparedAudio<T> {
    /// The padded buffer: silence, the original samples, silence.
    pub samples: Vec<T>,
    /// The sample rate of the buffer, in Hz.
    pub sample_rate: u32,
    /// How many samples the buffer held before padding.
    pub original_len: usize,
    /// Whether the original duration exceeded the 30-second safety threshold.
    /// Non-fatal: the buffer is padded and processed all the same, and the
    /// caller decides whether to warn an operator.
    pub long_audio_advisory: bool,
}

/// The padding run for one side of a buffer at `sample_rate` Hz, in samples.
pub fn pad_len(sample_rate: u32) -> (r: u64)
    ensures
        r == spec_pad_len(sample_rate),
{
    (9 * (sample_rate as u64) + 5) / 10
}

/// Whether the buffer lasts longer than the 30-second safety threshold.
pub fn exceeds_duration_threshold(n_samples: usize, sample_rate: u32) -> (b: bool)
    ensures
        b == spec_exceeds_threshold(n_samples as int, sample_rate as int),
{
    (n_samples as u64) > 30 * (sample_rate as u64)
}

/// At any sample rate, a duration of 30.5 seconds lies over the advisory
/// threshold and a duration of 29.9 seconds does not. The durations are
/// stated exactly: `10 * n == 305 * rate` says that `n` samples last 30.5
/// seconds, `10 * n == 299 * rate` that they last 29.9 seconds.
pub proof fn lemma_advisory_threshold(n: int, rate: int)
    requires
        rate >= 1,
    ensures
        10 * n == 305 * rate ==> spec_exceeds_threshold(n, rate),
        10 * n == 299 * rate ==> !spec_exceeds_threshold(n, rate),
{
}

/// Pads `samples` with `spec_pad_len(sample_rate)` copies of the zero sample
/// `zero` on each side, and records the original length and the advisory
/// flag. It never rejects input: an empty buffer yields pure silence.
pub fn prepare<T: Copy>(samples: Vec<T>, zero: T, sample_rate: u32) -> (r: PreparedAudio<T>)
    requires
        samples@.len() + 2 * spec_pad_len(sample_rate) <= usize::MAX,
    ensures
        r.samples@ == spec_silence(spec_pad_len(sample_rate), zero) + samples@ + spec_silence(
            spec_pad_len(sample_rate),
            zero,
        ),
        r.samples@.len() == samples@.len() + 2 * spec_pad_len(sample_rate),
        r.sample_rate == sample_rate,
        r.original_len == samples@.len(),
        r.long_audio_advisory == spec_exceeds_threshold(
            samples@.len() as int,
            sample_rate as int,
        ),
{
    let n = samples.len();
    let long_audio_advisory = exceeds_duration_threshold(n, sample_rate);
    let pad64 = pad_len(sample_rate);
    let pad = pad64 as usize;
    let mut out: Vec<T> = Vec::new();
    let mut i: usize = 0;
    while i < pad
        invariant
            i <= pad,
            pad == spec_pad_len(sample_rate),
            out@.len() == i,
            forall|k: int| 0 <= k < i ==> out@[k] == zero,
        decreases pad - i,
    {
        out.push(zero);
        i += 1;
    }
    let mut j: usize = 0;
    while j < n
        invariant
            j <= n,
            n == samples@.len(),
            pad == spec_pad_len(sample_rate),
            out@.len() == pad + j,
            forall|k: int| 0 <= k < pad ==> out@[k] == zero,
            forall|k: int| 0 <= k < j ==> out@[pad + k] == samples@[k],
        decreases n - j,
    {
        let s = samples[j];
        out.push(s);
        j += 1;
    }
    let mut t: usize = 0;
    while t < pad
        invariant
            t <= pad,
            n == samples@.len(),
            pad == spec_pad_len(sample_rate),
            out@.len() == pad + n + t,
            forall|k: int| 0 <= k < pad ==> out@[k] == zero,
            forall|k: int| 0 <= k < n ==> out@[pad + k] == samples@[k],
            forall|k: int| 0 <= k < t ==> #[trigger] out@[pad + n + k] == zero,
        decreases pad - t,
    {
        out.push(zero);
        t += 1;
    }
    proof {
        let target = spec_silence(spec_pad_len(sample_rate), zero) + samples@ + spec_silence(
            spec_pad_len(sample_rate),
            zero,
        );
        assert forall|m: int| 0 <= m < out@.len() implies out@[m] == target[m] by {
            if m < pad {
            } else if m < pad + n {
                assert(out@[pad + (m - pad)] == samples@[m - pad]);
            } else {
                assert(out@[pad + n + (m - pad - n)] == zero);
            }
        }
        assert(out@ =~= target);
    }
    PreparedAudio { samples: out, sample_rate, original_len: n, long_audio_advisory }
}

} // verus!
