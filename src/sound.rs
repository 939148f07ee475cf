use vstd::prelude::*;

verus! {

/// Sample rate of the notification tone, in Hz.
pub const TONE_RATE: u32 = 16000;

/// Pitch of the notification tone (A5), in Hz.
pub const TONE_PITCH: u32 = 880;

/// Length of the notification tone, in samples (150 ms).
pub const TONE_SAMPLES: u32 = 2400;

/// Length of the fade-in and of the fade-out, in samples (30 ms).
pub const TONE_FADE: u32 = 480;

/// Length of a canonical WAV header, in bytes.
pub const WAV_HEADER_LEN: usize = 44;

/// Little-endian bytes of a 16-bit value.
pub open spec fn le16(x: nat) -> Seq<u8> {
    seq![(x % 256) as u8, ((x / 256) % 256) as u8]
}

/// Little-endian bytes of a 32-bit value.
pub open spec fn le32(x: nat) -> Seq<u8> {
    seq![(x % 256) as u8, ((x / 0x100) % 256) as u8, ((x / 0x10000) % 256) as u8, ((x / 0x1000000) % 256) as u8]
}

/// Header of a WAV file holding `data_size` bytes of 8-bit mono PCM at
/// `rate` Hz.
pub open spec fn wav_header(rate: nat, data_size: nat) -> Seq<u8> {
    seq![82u8, 73, 70, 70] + le32(36 + data_size) + seq![87u8, 65, 86, 69] + seq![102u8, 109, 116, 32] + le32(16)
        + le16(1) + le16(1) + le32(rate) + le32(rate) + le16(1) + le16(8) + seq![100u8, 97, 116, 97] + le32(
        data_size,
    )
}

/// Fade envelope of tone sample `i`, in 480ths.
pub open spec fn envelope(i: int) -> int {
    if i < TONE_FADE {
        i
    } else if i > TONE_SAMPLES - TONE_FADE {
        TONE_SAMPLES - i
    } else {
        TONE_FADE as int
    }
}

/// Position of tone sample `i` within its half period, in 16000ths of a
/// period, and whether it lies in the upper half.
pub open spec fn tone_phase(i: int) -> (int, bool) {
    let p = (TONE_PITCH * i) % TONE_RATE as int;
    if p < 8000 {
        (p, true)
    } else {
        (p - 8000, false)
    }
}

/// Byte of tone sample `i`: the sine of the phase, by Bhaskara's rational
/// approximation `4x(H-x) / (5H^2/4 - x(H-x))` over a half period `H`, times
/// the envelope, mapped from [-1, 1] to [0, 255].
pub open spec fn tone_byte(i: int) -> u8 {
    let (x, upper) = tone_phase(i);
    let q = x * (8000 - x);
    let d = (80_000_000 - q) * TONE_FADE;
    let prod = 255 * (4 * q) * envelope(i);
    let n = if upper { 255 * d + prod } else { 255 * d - prod };
    (n / (2 * d)) as u8
}

/// The notification sound: a WAV file of the fading tone.
pub open spec fn success_sound() -> Seq<u8> {
    wav_header(TONE_RATE as nat, TONE_SAMPLES as nat) + Seq::new(TONE_SAMPLES as nat, |i: int| tone_byte(i))
}

fn push_le16(v: &mut Vec<u8>, x: u16)
    ensures
        final(v)@ == old(v)@ + le16(x as nat),
{
    v.push((x % 256) as u8);
    v.push((x / 256) as u8);
    assert(final(v)@ =~= old(v)@ + le16(x as nat));
}

fn push_le32(v: &mut Vec<u8>, x: u32)
    ensures
        final(v)@ == old(v)@ + le32(x as nat),
{
    v.push((x % 256) as u8);
    v.push(((x / 0x100) % 256) as u8);
    v.push(((x / 0x10000) % 256) as u8);
    v.push((x / 0x1000000) as u8);
    assert(final(v)@ =~= old(v)@ + le32(x as nat));
}

fn push_tag(v: &mut Vec<u8>, a: u8, b: u8, c: u8, d: u8)
    ensures
        final(v)@ == old(v)@ + seq![a, b, c, d],
{
    v.push(a);
    v.push(b);
    v.push(c);
    v.push(d);
    assert(final(v)@ =~= old(v)@ + seq![a, b, c, d]);
}

fn tone_sample(i: u32) -> (r: u8)
    requires
        i < TONE_SAMPLES,
    ensures
        r == tone_byte(i as int),
{
    let p: u64 = ((TONE_PITCH as u64) * (i as u64)) % (TONE_RATE as u64);
    let upper: bool = p < 8000;
    let x: u64 = if upper { p } else { p - 8000 };
    assert(x * (8000 - x) <= 16_000_000) by (nonlinear_arith)
        requires
            x <= 8000,
    ;
    let q: u64 = x * (8000 - x);
    let e: u64 = if i < TONE_FADE {
        i as u64
    } else if i > TONE_SAMPLES - TONE_FADE {
        (TONE_SAMPLES - i) as u64
    } else {
        TONE_FADE as u64
    };
    assert(e == envelope(i as int));
    let d: u64 = (80_000_000 - q) * (TONE_FADE as u64);
    assert(255 * (4 * q) * e <= 255 * d) by (nonlinear_arith)
        requires
            q <= 16_000_000,
            e <= 480,
            d == (80_000_000 - q) * 480,
    ;
    let prod: u64 = 255 * (4 * q) * e;
    let n: u64 = if upper { 255 * d + prod } else { 255 * d - prod };
    assert(n as int / (2 * d as int) <= 255) by (nonlinear_arith)
        requires
            n <= 510 * d,
            d > 0,
    ;
    (n / (2 * d)) as u8
}

/// Builds the notification sound played after a successful delivery: a WAV
/// file (8-bit mono PCM at 16 kHz) holding a 150 ms tone at 880 Hz that fades
/// in and out over 30 ms. The sine is computed in integer arithmetic.
pub fn generate_success_sound() -> (r: Vec<u8>)
    ensures
        r@ == success_sound(),
        r@.len() == WAV_HEADER_LEN + TONE_SAMPLES,
{
    let mut wav: Vec<u8> = Vec::with_capacity(WAV_HEADER_LEN + TONE_SAMPLES as usize);
    push_tag(&mut wav, 82, 73, 70, 70);
    push_le32(&mut wav, 36 + TONE_SAMPLES);
    push_tag(&mut wav, 87, 65, 86, 69);
    push_tag(&mut wav, 102, 109, 116, 32);
    push_le32(&mut wav, 16);
    push_le16(&mut wav, 1);
    push_le16(&mut wav, 1);
    push_le32(&mut wav, TONE_RATE);
    push_le32(&mut wav, TONE_RATE);
    push_le16(&mut wav, 1);
    push_le16(&mut wav, 8);
    push_tag(&mut wav, 100, 97, 116, 97);
    push_le32(&mut wav, TONE_SAMPLES);
    let ghost header = wav@;
    assert(header =~= wav_header(TONE_RATE as nat, TONE_SAMPLES as nat));
    let mut i: u32 = 0;
    while i < TONE_SAMPLES
        invariant
            i <= TONE_SAMPLES,
            header == wav_header(TONE_RATE as nat, TONE_SAMPLES as nat),
            header.len() == WAV_HEADER_LEN,
            wav@.len() == WAV_HEADER_LEN + i,
            wav@.subrange(0, WAV_HEADER_LEN as int) == header,
            forall|k: int| 0 <= k < i ==> #[trigger] wav@[WAV_HEADER_LEN + k] == tone_byte(k),
        decreases TONE_SAMPLES - i,
    {
        let b = tone_sample(i);
        let ghost before = wav@;
        wav.push(b);
        assert(wav@.subrange(0, WAV_HEADER_LEN as int) =~= before.subrange(0, WAV_HEADER_LEN as int));
        assert forall|k: int| 0 <= k < i + 1 implies #[trigger] wav@[WAV_HEADER_LEN + k] == tone_byte(k) by {
            if k < i {
                assert(wav@[WAV_HEADER_LEN + k] == before[WAV_HEADER_LEN + k]);
            }
        }
        i = i + 1;
    }
    assert(wav@ =~= success_sound()) by {
        assert forall|k: int| 0 <= k < wav@.len() implies wav@[k] == success_sound()[k] by {
            if k >= WAV_HEADER_LEN {
                assert(wav@[WAV_HEADER_LEN + (k - WAV_HEADER_LEN)] == tone_byte(k - WAV_HEADER_LEN));
            } else {
                assert(wav@[k] == wav@.subrange(0, WAV_HEADER_LEN as int)[k]);
            }
        }
    }
    wav
}

} // verus!
