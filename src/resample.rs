use vstd::prelude::*;

verus! {

/// Sample rate, in Hz, of the canonical audio handed to transcription.
pub const CANONICAL_RATE: u32 = 16000;

/// Number of samples that rate conversion produces from `len` mono samples
/// captured at `rate` Hz.
pub open spec fn converted_len(len: nat, rate: nat) -> nat {
    if rate == CANONICAL_RATE {
        len
    } else {
        (len * CANONICAL_RATE as nat) / rate
    }
}

/// Index of the mono sample that output sample `i` is taken from
/// (nearest lower index).
pub open spec fn source_index(i: nat, rate: nat) -> nat {
    (i * rate) / CANONICAL_RATE as nat
}

/// Rate conversion by nearest-lower-index sampling, without filtering.
pub open spec fn convert_rate_spec<T>(mono: Seq<T>, rate: nat) -> Seq<T> {
    if rate == CANONICAL_RATE {
        mono
    } else {
        Seq::new(converted_len(mono.len(), rate), |i: int| mono[source_index(i as nat, rate) as int])
    }
}

proof fn lemma_source_index_in_range(i: nat, len: nat, rate: nat)
    requires
        rate > 0,
        i < (len * CANONICAL_RATE as nat) / rate,
    ensures
        i * rate < len * CANONICAL_RATE,
        source_index(i, rate) < len,
{
    let c = CANONICAL_RATE as nat;
    assert(i * rate < len * c) by (nonlinear_arith)
        requires
            i < (len * c) / rate,
            rate > 0,
    ;
    assert((i * rate) / c < len) by (nonlinear_arith)
        requires
            i * rate < len * c,
            c > 0,
    ;
}

fn copy_samples<T: Copy>(v: &Vec<T>) -> (r: Vec<T>)
    ensures
        r@ == v@,
{
    let mut out: Vec<T> = Vec::with_capacity(v.len());
    let mut i: usize = 0;
    while i < v.len()
        invariant
            i <= v@.len(),
            out@ == v@.subrange(0, i as int),
        decreases v@.len() - i,
    {
        out.push(v[i]);
        i = i + 1;
    }
    assert(out@ =~= v@);
    out
}

fn convert_rate<T: Copy>(mono: &Vec<T>, rate: u32) -> (r: Vec<T>)
    requires
        rate > 0,
        mono@.len() * CANONICAL_RATE <= usize::MAX,
    ensures
        r@ == convert_rate_spec(mono@, rate as nat),
{
    if rate == CANONICAL_RATE {
        return copy_samples(mono);
    }
    let len: usize = mono.len();
    let new_len: usize = ((len as u64) * (CANONICAL_RATE as u64) / (rate as u64)) as usize;
    let mut out: Vec<T> = Vec::with_capacity(new_len);
    let mut i: usize = 0;
    while i < new_len
        invariant
            rate > 0,
            rate != CANONICAL_RATE,
            len == mono@.len(),
            len * CANONICAL_RATE <= usize::MAX,
            new_len == converted_len(len as nat, rate as nat),
            i <= new_len,
            out@.len() == i,
            forall|k: int|
                0 <= k < i ==> #[trigger] out@[k] == mono@[source_index(k as nat, rate as nat) as int],
        decreases new_len - i,
    {
        proof {
            lemma_source_index_in_range(i as nat, len as nat, rate as nat);
        }
        let src: usize = ((i as u64) * (rate as u64) / (CANONICAL_RATE as u64)) as usize;
        out.push(mono[src]);
        i = i + 1;
    }
    assert(out@ =~= convert_rate_spec(mono@, rate as nat));
    out
}

/// Frame `f` of an interleaved sequence with `channels` samples per frame; a
/// trailing frame may be shorter when the length is not a multiple.
pub open spec fn frame_of<T>(samples: Seq<T>, channels: nat, f: nat) -> Seq<T> {
    let start: int = (f * channels) as int;
    let end: int = if start + channels <= samples.len() { start + channels as int } else { samples.len() as int };
    samples.subrange(start as int, end as int)
}

/// Number of frames, counting a trailing partial one.
pub open spec fn frame_count(len: nat, channels: nat) -> nat {
    ((len + channels - 1) as nat) / channels
}

/// Whether `m` is a result of `mix` on frame `f`.
pub open spec fn mixes_frame<T, F: Fn(Vec<T>) -> T>(samples: Seq<T>, channels: nat, mix: F, f: nat, m: T) -> bool {
    exists|v: Vec<T>| v@ == frame_of(samples, channels, f) && #[trigger] call_ensures(mix, (v,), m)
}

/// Whether `mono` is the downmix of `samples`: for more than one channel, one
/// value per frame, each a result of `mix` on that frame; otherwise the
/// samples themselves.
pub open spec fn is_downmix<T, F: Fn(Vec<T>) -> T>(samples: Seq<T>, channels: nat, mix: F, mono: Seq<T>) -> bool {
    if channels > 1 {
        &&& mono.len() == frame_count(samples.len(), channels)
        &&& forall|f: int|
            0 <= f < mono.len() ==> mixes_frame(samples, channels, mix, f as nat, #[trigger] mono[f])
    } else {
        mono == samples
    }
}

proof fn lemma_frame_bounds(len: nat, channels: nat, f: nat)
    requires
        channels > 1,
        f < frame_count(len, channels),
    ensures
        f * channels < len,
{
    assert(f * channels < len) by (nonlinear_arith)
        requires
            channels > 1,
            f < ((len + channels - 1) as nat) / channels,
    ;
}

fn downmix<T: Copy, F: Fn(Vec<T>) -> T>(samples: &Vec<T>, channels: u16, mix: &F) -> (r: Vec<T>)
    requires
        channels > 1,
        forall|v: Vec<T>| #[trigger] mix.requires((v,)),
    ensures
        is_downmix(samples@, channels as nat, *mix, r@),
{
    let len: usize = samples.len();
    let ch: usize = channels as usize;
    assert(len / ch < len || len == 0) by (nonlinear_arith)
        requires
            ch > 1,
    ;
    let n: usize = len / ch + if len % ch == 0 { 0 } else { 1 };
    assert(n == frame_count(len as nat, ch as nat)) by (nonlinear_arith)
        requires
            ch > 1,
            n == len / ch + if len % ch == 0 { 0int } else { 1int },
    ;
    let mut out: Vec<T> = Vec::new();
    let mut f: usize = 0;
    while f < n
        invariant
            ch == channels as nat,
            ch > 1,
            len == samples@.len(),
            n == frame_count(len as nat, ch as nat),
            f <= n,
            out@.len() == f,
            forall|v: Vec<T>| #[trigger] mix.requires((v,)),
            forall|g: int| 0 <= g < f ==> mixes_frame(samples@, ch as nat, *mix, g as nat, #[trigger] out@[g]),
        decreases n - f,
    {
        proof {
            lemma_frame_bounds(len as nat, ch as nat, f as nat);
        }
        let start: usize = f * ch;
        let end: usize = if len - start >= ch { start + ch } else { len };
        let mut frame: Vec<T> = Vec::new();
        let mut j: usize = start;
        while j < end
            invariant
                start <= j <= end <= len,
                len == samples@.len(),
                frame@ == samples@.subrange(start as int, j as int),
            decreases end - j,
        {
            frame.push(samples[j]);
            j = j + 1;
        }
        let ghost fv: Vec<T> = frame;
        assert(fv@ == frame_of(samples@, ch as nat, f as nat));
        let m = mix(frame);
        let ghost before = out@;
        out.push(m);
        assert(mixes_frame(samples@, ch as nat, *mix, f as nat, out@[f as int]));
        assert forall|g: int| 0 <= g < f implies mixes_frame(samples@, ch as nat, *mix, g as nat, #[trigger] out@[g]) by {
            assert(out@[g] == before[g]);
        }
        f = f + 1;
    }
    out
}

/// Converts interleaved samples with `channels` channels at
/// `original_sample_rate` Hz to mono audio at 16 kHz.
///
/// With more than one channel, each frame of `channels` consecutive samples
/// (the last one possibly shorter) becomes one mono sample, given by `mix`
/// (the mean of the frame's channels). Rate conversion then keeps the mono
/// sequence when the rate is already 16 kHz, and otherwise takes
/// `len * 16000 / rate` samples by nearest-lower-index sampling. No filtering
/// is applied: the conversion is lossy and not bit-accurate against reference
/// resamplers.
pub fn resample_to_16k_mono<T: Copy, F: Fn(Vec<T>) -> T>(
    samples: &Vec<T>,
    original_sample_rate: u32,
    channels: u16,
    mix: F,
) -> (r: Vec<T>)
    requires
        original_sample_rate > 0,
        samples@.len() * CANONICAL_RATE <= usize::MAX,
        forall|v: Vec<T>| #[trigger] mix.requires((v,)),
    ensures
        exists|mono: Seq<T>|
            is_downmix(samples@, channels as nat, mix, mono) && r@ == convert_rate_spec(
                mono,
                original_sample_rate as nat,
            ),
        channels <= 1 ==> r@ == convert_rate_spec(samples@, original_sample_rate as nat),
        channels <= 1 && original_sample_rate == CANONICAL_RATE ==> r@ == samples@,
        r@.len() == converted_len(
            if channels > 1 { frame_count(samples@.len(), channels as nat) } else { samples@.len() },
            original_sample_rate as nat,
        ),
{
    let mono: Vec<T> = if channels > 1 {
        downmix(samples, channels, &mix)
    } else {
        copy_samples(samples)
    };
    proof {
        if channels > 1 {
            assert(frame_count(samples@.len(), channels as nat) <= samples@.len()) by (nonlinear_arith)
                requires channels > 1;
        }
    }
    let r = convert_rate(&mono, original_sample_rate);
    assert(is_downmix(samples@, channels as nat, mix, mono@));
    r
}

/// For two channels, frame `f` of a sequence of whole frames is the pair
/// of samples `2f` and `2f + 1`, so the downmix of stereo input holds one mix
/// of each pair, in order.
pub proof fn lemma_stereo_frames<T>(samples: Seq<T>, f: nat)
    requires
        samples.len() % 2 == 0,
        f < samples.len() / 2,
    ensures
        frame_count(samples.len(), 2) == samples.len() / 2,
        frame_of(samples, 2, f) == seq![samples[2 * f as int], samples[2 * f as int + 1]],
{
    assert(frame_of(samples, 2, f) =~= seq![samples[2 * f as int], samples[2 * f as int + 1]]);
}

} // verus!
