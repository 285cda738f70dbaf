use crate::pipeline::CaptureError;
use vstd::prelude::*;

verus! {

/// The sample rate, in Hz, that the speech model takes.
pub const TARGET_RATE: u32 = 16000;

/// Whether audio of `len` samples at `from_rate` Hz is handed on as it is: it is at the
/// target rate already, or there is none.
pub open spec fn spec_is_passthrough(len: nat, from_rate: u32) -> bool {
    from_rate == TARGET_RATE || len == 0
}

/// How many samples `len` samples at `from_rate` Hz make at the target rate: `len` times
/// the ratio of the rates, rounded to the nearest whole number, halves up.
pub open spec fn spec_scaled_len(len: nat, from_rate: u32) -> nat {
    ((2 * len * TARGET_RATE + from_rate) / (2 * from_rate)) as nat
}

/// How many samples the resampler gives for `len` samples at `from_rate` Hz.
pub open spec fn spec_resampled_len(len: nat, from_rate: u32) -> nat {
    if spec_is_passthrough(len, from_rate) {
        len
    } else {
        spec_scaled_len(len, from_rate)
    }
}

/// The place in the input that output sample `i` is read from: the input sample at or
/// before it, the one after that (the last one again at the end of the input), and how far
/// between the two it lies, in 16000ths.
#[derive(Clone, Copy, Debug, PartialEq, Eq, Structural)]
pub struct Tap {
    pub lo: usize,
    pub hi: usize,
    pub frac: u32,
}

/// Index of the input sample at or before the source position of output sample `i`.
pub open spec fn spec_tap_lo(from_rate: u32, i: nat) -> nat {
    ((i * from_rate) / (TARGET_RATE as int)) as nat
}

/// How far past that input sample the source position lies, in 16000ths.
pub open spec fn spec_tap_frac(from_rate: u32, i: nat) -> nat {
    ((i * from_rate) % (TARGET_RATE as int)) as nat
}

/// Index of the input sample that follows, held to the last sample of the input.
pub open spec fn spec_tap_hi(len: nat, from_rate: u32, i: nat) -> nat {
    if spec_tap_lo(from_rate, i) + 1 < len {
        spec_tap_lo(from_rate, i) + 1
    } else {
        (len - 1) as nat
    }
}

/// Every output sample is read from inside the input.
pub proof fn lemma_tap_in_range(len: nat, from_rate: u32, i: nat)
    requires
        from_rate > 0,
        i < spec_scaled_len(len, from_rate),
    ensures
        spec_tap_lo(from_rate, i) < len,
        spec_tap_hi(len, from_rate, i) < len,
        spec_tap_lo(from_rate, i) <= spec_tap_hi(len, from_rate, i),
        spec_tap_frac(from_rate, i) < TARGET_RATE,
{
    let r = from_rate as int;
    let n = spec_scaled_len(len, from_rate) as int;
    let top = 2 * len * 16000 + r;
    assert(n == top / (2 * r));
    assert(n * (2 * r) <= top) by (nonlinear_arith)
        requires
            n == top / (2 * r),
            r > 0,
            top >= 0,
    ;
    assert((i + 1) * (2 * r) <= n * (2 * r)) by (nonlinear_arith)
        requires
            i + 1 <= n,
            r > 0,
    ;
    assert((i + 1) * (2 * r) == 2 * (i * r) + 2 * r) by (nonlinear_arith);
    assert(i * r < len * 16000);
    assert((i * r) / 16000 < len) by (nonlinear_arith)
        requires
            0 <= i * r < len * 16000,
    ;
}

/// At the target rate the general rule is the identity: as many samples out as in, each
/// read from its own place with nothing of the next mixed in.
pub proof fn lemma_unit_ratio(len: nat, i: nat)
    ensures
        spec_scaled_len(len, TARGET_RATE) == len,
        spec_tap_lo(TARGET_RATE, i) == i,
        spec_tap_frac(TARGET_RATE, i) == 0,
{
    assert((2 * len * 16000 + 16000) / 32000 == len) by (nonlinear_arith);
    assert((i * 16000) / 16000 == i) by (nonlinear_arith);
    assert((i * 16000) % 16000 == 0) by (nonlinear_arith);
}

/// How many samples `len` samples at `from_rate` Hz become at 16 kHz, where that number
/// can be had: a rate of zero has no answer, nor has a length beyond the machine's reach.
pub fn resampled_len(len: usize, from_rate: u32) -> (r: Option<usize>)
    ensures
        r is Some <==> (spec_is_passthrough(len as nat, from_rate) || (from_rate > 0
            && spec_scaled_len(len as nat, from_rate) <= usize::MAX)),
        r is Some ==> r->0 == spec_resampled_len(len as nat, from_rate),
{
    if from_rate == TARGET_RATE || len == 0 {
        return Some(len);
    }
    if from_rate == 0 {
        return None;
    }
    assert(len <= 0xFFFF_FFFF_FFFF_FFFF);
    let top: u128 = 32000u128 * (len as u128) + (from_rate as u128);
    let n: u128 = top / (2 * (from_rate as u128));
    if n > usize::MAX as u128 {
        None
    } else {
        Some(n as usize)
    }
}

/// The place in the input that output sample `i` is read from.
pub fn tap_at(len: usize, from_rate: u32, i: usize) -> (t: Tap)
    requires
        from_rate > 0,
        i < spec_scaled_len(len as nat, from_rate),
    ensures
        t.lo == spec_tap_lo(from_rate, i as nat),
        t.hi == spec_tap_hi(len as nat, from_rate, i as nat),
        t.frac == spec_tap_frac(from_rate, i as nat),
        t.lo <= t.hi < len,
        t.frac < TARGET_RATE,
{
    proof {
        lemma_tap_in_range(len as nat, from_rate, i as nat);
    }
    let pos: u128 = (i as u128) * (from_rate as u128);
    let lo: usize = (pos / (TARGET_RATE as u128)) as usize;
    let frac: u32 = (pos % (TARGET_RATE as u128)) as u32;
    let hi: usize = if lo + 1 < len {
        lo + 1
    } else {
        len - 1
    };
    Tap { lo, hi, frac }
}

/// Brings captured audio to 16 kHz by linear interpolation.
///
/// Audio that is at 16 kHz already, and empty audio, comes back unchanged. Otherwise the
/// result has the length that the ratio of the rates gives, and output sample `i` is what
/// `lerp` makes of the two input samples around its source position and of the fraction
/// between them, in 16000ths. The arithmetic on the samples is the caller's: this function
/// decides which samples meet and in what proportion.
pub fn resample_to_16k<T: Copy, F: Fn(T, T, u32) -> T>(
    samples: &[T],
    from_rate: u32,
    lerp: F,
) -> (out: Vec<T>)
    requires
        from_rate > 0 || samples@.len() == 0,
        spec_resampled_len(samples@.len(), from_rate) <= usize::MAX,
        forall|a: T, b: T, k: u32| k < TARGET_RATE ==> call_requires(lerp, (a, b, k)),
    ensures
        spec_is_passthrough(samples@.len(), from_rate) ==> out@ == samples@,
        out@.len() == spec_resampled_len(samples@.len(), from_rate),
        !spec_is_passthrough(samples@.len(), from_rate) ==> forall|i: int|
            0 <= i < out@.len() ==> call_ensures(
                lerp,
                (
                    samples@[spec_tap_lo(from_rate, i as nat) as int],
                    samples@[spec_tap_hi(samples@.len(), from_rate, i as nat) as int],
                    spec_tap_frac(from_rate, i as nat) as u32,
                ),
                #[trigger] out@[i],
            ),
{
    let len = samples.len();
    let mut out: Vec<T> = Vec::new();
    if from_rate == TARGET_RATE || len == 0 {
        let mut i: usize = 0;
        while i < len
            invariant
                i <= len,
                len == samples@.len(),
                out@ == samples@.take(i as int),
            decreases len - i,
        {
            out.push(samples[i]);
            assert(samples@.take(i as int).push(samples@[i as int]) =~= samples@.take(i + 1));
            i += 1;
        }
        assert(samples@.take(len as int) =~= samples@);
        return out;
    }
    let new_len = match resampled_len(len, from_rate) {
        Some(n) => n,
        None => 0,
    };
    let mut i: usize = 0;
    while i < new_len
        invariant
            i <= new_len,
            len == samples@.len(),
            from_rate > 0,
            new_len == spec_scaled_len(len as nat, from_rate),
            out@.len() == i,
            forall|a: T, b: T, k: u32| k < TARGET_RATE ==> call_requires(lerp, (a, b, k)),
            forall|j: int|
                0 <= j < i ==> call_ensures(
                    lerp,
                    (
                        samples@[spec_tap_lo(from_rate, j as nat) as int],
                        samples@[spec_tap_hi(len as nat, from_rate, j as nat) as int],
                        spec_tap_frac(from_rate, j as nat) as u32,
                    ),
                    #[trigger] out@[j],
                ),
        decreases new_len - i,
    {
        let t = tap_at(len, from_rate, i);
        let y = lerp(samples[t.lo], samples[t.hi], t.frac);
        out.push(y);
        i += 1;
    }
    out
}

/// How many mono samples `len` interleaved samples of `channels` channels make: one for
/// each frame, a last incomplete frame included; none where there are no channels.
pub open spec fn spec_frame_count(len: nat, channels: nat) -> nat {
    if channels == 0 {
        0
    } else {
        ((len + channels - 1) / (channels as int)) as nat
    }
}

/// Where frame `k` begins in the interleaved data.
pub open spec fn spec_frame_start(channels: nat, k: nat) -> nat {
    k * channels
}

/// Where frame `k` ends in the interleaved data: a whole frame on, or at the end of the data.
pub open spec fn spec_frame_end(len: nat, channels: nat, k: nat) -> nat {
    if (k + 1) * channels < len {
        (k + 1) * channels
    } else {
        len
    }
}

/// How many mono samples interleaved data of `len` samples makes.
pub fn frame_count(len: usize, channels: usize) -> (n: usize)
    ensures
        n == spec_frame_count(len as nat, channels as nat),
{
    if channels == 0 {
        return 0;
    }
    let whole: usize = len / channels;
    let rest: usize = len % channels;
    proof {
        lemma_frame_count_split(len as nat, channels as nat);
    }
    if rest == 0 {
        whole
    } else {
        assert(whole < len) by (nonlinear_arith)
            requires
                whole == len / channels,
                rest == len % channels,
                rest != 0,
                channels > 0,
        ;
        whole + 1
    }
}

/// Where frame `k` lies in the interleaved data: its first index and the index past its
/// last. Every frame but the last holds `channels` samples; the last holds what is left.
pub fn frame_bounds(len: usize, channels: usize, k: usize) -> (r: (usize, usize))
    requires
        channels > 0,
        k < spec_frame_count(len as nat, channels as nat),
    ensures
        r.0 == spec_frame_start(channels as nat, k as nat),
        r.1 == spec_frame_end(len as nat, channels as nat, k as nat),
        r.0 < r.1 <= len,
        r.1 - r.0 <= channels,
{
    proof {
        lemma_frame_count(len as nat, channels as nat, k as nat);
        assert((k + 1) * channels == k * channels + channels) by (nonlinear_arith);
    }
    let start: usize = k * channels;
    let end: usize = if channels < len - start {
        start + channels
    } else {
        len
    };
    (start, end)
}

/// The number of frames is the number of whole frames, and one more where samples are left
/// over.
pub proof fn lemma_frame_count_split(len: nat, channels: nat)
    requires
        channels > 0,
    ensures
        spec_frame_count(len, channels) == len / channels + if len % channels == 0 {
            0nat
        } else {
            1nat
        },
{
    let c = channels as int;
    let l = len as int;
    let q = l / c;
    let r = l % c;
    assert(l == q * c + r && 0 <= r < c) by (nonlinear_arith)
        requires
            q == l / c,
            r == l % c,
            c > 0,
    ;
    if r == 0 {
        assert((q * c + c - 1) / c == q) by (nonlinear_arith)
            requires
                c > 0,
        ;
    } else {
        assert((q * c + r + c - 1) / c == q + 1) by (nonlinear_arith)
            requires
                c > 0,
                0 < r < c,
        ;
    }
}

/// How the frames lie: frame `k` begins inside the data exactly if there are more than `k`
/// frames.
pub proof fn lemma_frame_count(len: nat, channels: nat, k: nat)
    requires
        channels > 0,
    ensures
        k * channels < len <==> k < spec_frame_count(len, channels),
{
    let c = channels as int;
    let n = spec_frame_count(len, channels) as int;
    let top = len + c - 1;
    assert(n == top / c);
    assert(n * c <= top && top < n * c + c) by (nonlinear_arith)
        requires
            n == top / c,
            c > 0,
            top >= 0,
    ;
    if k < n {
        assert(k * c <= (n - 1) * c) by (nonlinear_arith)
            requires
                k <= n - 1,
                c > 0,
        ;
        assert((n - 1) * c == n * c - c) by (nonlinear_arith);
    } else {
        assert(k * c >= n * c) by (nonlinear_arith)
            requires
                k >= n,
                c > 0,
        ;
    }
}

/// How the input device encodes its samples.
#[derive(Clone, Copy, Debug, PartialEq, Eq, Structural)]
pub enum SampleEncoding {
    /// 32-bit floating point.
    F32,
    /// Signed 16-bit integers.
    I16,
    /// Unsigned 16-bit integers.
    U16,
    /// Anything else.
    Other,
}

/// Whether a capture can be started on a device with this encoding: the three supported
/// encodings pass, any other is refused as an unsupported format.
pub fn check_encoding(encoding: SampleEncoding) -> (r: Result<(), CaptureError>)
    ensures
        r is Ok <==> encoding != SampleEncoding::Other,
        r is Err ==> r == Err::<(), CaptureError>(CaptureError::UnsupportedFormat),
{
    match encoding {
        SampleEncoding::Other => Err(CaptureError::UnsupportedFormat),
        _ => Ok(()),
    }
}

/// Whether a drained buffer of `sample_count` samples is a recording: an empty one is
/// refused as an empty recording.
pub fn check_recording(sample_count: usize) -> (r: Result<(), CaptureError>)
    ensures
        r is Ok <==> sample_count > 0,
        r is Err ==> r == Err::<(), CaptureError>(CaptureError::EmptyRecording),
{
    if sample_count == 0 {
        Err(CaptureError::EmptyRecording)
    } else {
        Ok(())
    }
}

} // verus!
