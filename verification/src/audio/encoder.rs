//! The resampler and the encoder: amplitudes at the device's rate in, a
//! 16-bit mono WAVE container at the target rate out.

use vstd::prelude::*;

use crate::audio::sample::{div_toward_zero, quantize, quantized_all};
use crate::errors::VoiceFlowError;

verus! {

/// The rate of the encoded audio, in samples per second.
pub const TARGET_SAMPLE_RATE: u32 = 16000;

/// The channel count of the encoded audio.
pub const TARGET_CHANNELS: u16 = 1;

/// The width of one encoded sample, in bits.
pub const TARGET_BITS: u16 = 16;

/// The size of the container's header, in bytes.
pub const HEADER_LEN: usize = 44;

/// The number of samples that `len` samples at `from_rate` become at
/// `to_rate`: `len * to_rate / from_rate`, rounded down.
pub open spec fn resampled_len(len: int, from_rate: int, to_rate: int) -> int {
    if from_rate > 0 {
        len * to_rate / from_rate
    } else {
        0
    }
}

/// The index of the source sample at or before the position
/// `i * from_rate / to_rate` of output sample `i`.
pub open spec fn source_index(i: int, from_rate: int, to_rate: int) -> int {
    i * from_rate / to_rate
}

/// How far output sample `i` lies past its source sample, in units of
/// `1 / to_rate` of the distance to the next source sample.
pub open spec fn source_offset(i: int, from_rate: int, to_rate: int) -> int {
    (i * from_rate) % to_rate
}

/// The linear blend of `a` and `b` at `offset / unit` of the way from `a`
/// to `b`.
pub open spec fn blend(a: int, b: int, offset: int, unit: int) -> int {
    div_toward_zero(a * (unit - offset) + b * offset, unit)
}

/// Output sample `i` of the resampler: the blend of the two source samples
/// that bracket its position, or the last source sample where the position
/// has no successor.
pub open spec fn resampled_at(s: Seq<i32>, from_rate: int, to_rate: int, i: int) -> int {
    let idx = source_index(i, from_rate, to_rate);
    if idx + 1 < s.len() {
        blend(s[idx] as int, s[idx + 1] as int, source_offset(i, from_rate, to_rate), to_rate)
    } else if idx < s.len() {
        s[idx] as int
    } else {
        s[s.len() - 1] as int
    }
}

/// The samples `s`, taken at `from_rate`, resampled to `to_rate` by linear
/// interpolation.
pub open spec fn resampled(s: Seq<i32>, from_rate: int, to_rate: int) -> Seq<i32> {
    Seq::new(
        resampled_len(s.len() as int, from_rate, to_rate) as nat,
        |i: int| resampled_at(s, from_rate, to_rate, i) as i32,
    )
}

/// The samples that are encoded: `s` itself where it is at the target rate
/// already, else `s` resampled to the target rate.
pub open spec fn at_target_rate(s: Seq<i32>, source_rate: int) -> Seq<i32> {
    if source_rate == TARGET_SAMPLE_RATE as int {
        s
    } else {
        resampled(s, source_rate, TARGET_SAMPLE_RATE as int)
    }
}

/// Every output position lies inside the source: its source index is below
/// the source's length.
pub proof fn lemma_source_index_in_range(len: int, from_rate: int, to_rate: int, i: int)
    requires
        from_rate > 0,
        len >= 0,
        0 <= i < resampled_len(len, from_rate, to_rate),
    ensures
        to_rate > 0,
        0 <= source_index(i, from_rate, to_rate) < len,
        0 <= source_offset(i, from_rate, to_rate) < to_rate,
{
    let n = len * to_rate;
    if to_rate <= 0 {
        assert(n <= 0) by (nonlinear_arith)
            requires
                n == len * to_rate,
                len >= 0,
                to_rate <= 0,
        ;
        vstd::arithmetic::div_mod::lemma_fundamental_div_mod(n, from_rate);
        vstd::arithmetic::div_mod::lemma_mod_bound(n, from_rate);
        let q = n / from_rate;
        let r = n % from_rate;
        assert(q <= 0) by (nonlinear_arith)
            requires
                n == from_rate * q + r,
                0 <= r < from_rate,
                n <= 0,
        ;
    }
    vstd::arithmetic::div_mod::lemma_fundamental_div_mod(n, from_rate);
    vstd::arithmetic::div_mod::lemma_mod_bound(n, from_rate);
    let out = n / from_rate;
    let p = i * from_rate;
    vstd::arithmetic::div_mod::lemma_fundamental_div_mod(p, to_rate);
    vstd::arithmetic::div_mod::lemma_mod_bound(p, to_rate);
    let idx = p / to_rate;
    let off = p % to_rate;
    assert(p < n) by (nonlinear_arith)
        requires
            p == i * from_rate,
            n == from_rate * out + n % from_rate,
            0 <= n % from_rate,
            0 <= i < out,
            from_rate > 0,
    ;
    assert(0 <= idx < len) by (nonlinear_arith)
        requires
            p == to_rate * idx + off,
            0 <= off < to_rate,
            p < n,
            n == len * to_rate,
            p == i * from_rate,
            i >= 0,
            from_rate > 0,
            len >= 0,
    ;
}

/// A blend never leaves the interval between its two ends.
pub proof fn lemma_blend_between(a: int, b: int, offset: int, unit: int)
    requires
        0 <= offset < unit,
    ensures
        a <= b ==> a <= blend(a, b, offset, unit) <= b,
        b <= a ==> b <= blend(a, b, offset, unit) <= a,
        blend(a, b, 0, unit) == a,
{
    let w = unit - offset;
    let n = a * w + b * offset;
    let lo = if a <= b {
        a
    } else {
        b
    };
    let hi = if a <= b {
        b
    } else {
        a
    };
    assert(lo * unit <= n <= hi * unit) by (nonlinear_arith)
        requires
            n == a * w + b * offset,
            lo <= a <= hi,
            lo <= b <= hi,
            0 <= offset,
            0 < w,
            unit == w + offset,
    ;
    if n >= 0 {
        vstd::arithmetic::div_mod::lemma_fundamental_div_mod(n, unit);
        vstd::arithmetic::div_mod::lemma_mod_bound(n, unit);
        let q = n / unit;
        let r = n % unit;
        assert(lo <= q <= hi) by (nonlinear_arith)
            requires
                n == unit * q + r,
                0 <= r < unit,
                lo * unit <= n <= hi * unit,
                n >= 0,
        ;
    } else {
        let m = -n;
        vstd::arithmetic::div_mod::lemma_fundamental_div_mod(m, unit);
        vstd::arithmetic::div_mod::lemma_mod_bound(m, unit);
        let q = m / unit;
        let r = m % unit;
        assert(lo <= -q <= hi) by (nonlinear_arith)
            requires
                m == unit * q + r,
                0 <= r < unit,
                lo * unit <= -m <= hi * unit,
                m > 0,
        ;
    }
    assert(a * (unit - 0) + b * 0 == a * unit) by (nonlinear_arith);
    if a >= 0 {
        vstd::arithmetic::div_mod::lemma_div_multiples_vanish(a, unit);
        assert(a * unit == unit * a) by (nonlinear_arith);
        assert(a * unit >= 0) by (nonlinear_arith)
            requires
                a >= 0,
                unit > 0,
        ;
    } else {
        vstd::arithmetic::div_mod::lemma_div_multiples_vanish(-a, unit);
        assert(-(a * unit) == unit * (-a)) by (nonlinear_arith);
        assert(a * unit < 0) by (nonlinear_arith)
            requires
                a < 0,
                unit > 0,
        ;
    }
}

/// A blend lies within the range of an amplitude whenever its two ends do.
proof fn lemma_blend_in_range(a: int, b: int, offset: int, unit: int)
    requires
        -0x8000_0000 <= a <= 0x7fff_ffff,
        -0x8000_0000 <= b <= 0x7fff_ffff,
        0 <= offset < unit,
    ensures
        -0x8000_0000 <= blend(a, b, offset, unit) <= 0x7fff_ffff,
        -0x8000_0000 * unit <= a * (unit - offset) + b * offset <= 0x7fff_ffff * unit,
{
    let w = unit - offset;
    assert(-0x8000_0000 * unit <= a * w + b * offset <= 0x7fff_ffff * unit) by (nonlinear_arith)
        requires
            -0x8000_0000 <= a <= 0x7fff_ffff,
            -0x8000_0000 <= b <= 0x7fff_ffff,
            0 <= offset,
            0 < w,
            unit == w + offset,
    ;
    crate::audio::sample::lemma_div_toward_zero_bounds(
        a * w + b * offset,
        unit,
        -0x8000_0000,
        0x7fff_ffff,
    );
}

/// Resampling to the rate that the samples already have changes nothing.
pub proof fn lemma_resample_same_rate(s: Seq<i32>, rate: int)
    requires
        rate > 0,
    ensures
        resampled(s, rate, rate) == s,
{
    let len = s.len() as int;
    vstd::arithmetic::div_mod::lemma_div_multiples_vanish(len, rate);
    assert(len * rate == rate * len) by (nonlinear_arith);
    assert(resampled_len(len, rate, rate) == len);
    assert forall|i: int| 0 <= i < len implies resampled_at(s, rate, rate, i) == s[i] by {
        vstd::arithmetic::div_mod::lemma_div_multiples_vanish(i, rate);
        vstd::arithmetic::div_mod::lemma_mod_multiples_basic(i, rate);
        assert(i * rate == rate * i) by (nonlinear_arith);
        assert(source_index(i, rate, rate) == i);
        assert(source_offset(i, rate, rate) == 0);
        if i + 1 < len {
            lemma_blend_between(s[i] as int, s[i + 1] as int, 0, rate);
        }
    }
    assert(resampled(s, rate, rate) =~= s);
}

/// The resampled length is `len * to_rate / from_rate` rounded down: it
/// falls short of the exact quotient by less than one sample.
pub proof fn lemma_resampled_len_bounds(len: int, from_rate: int, to_rate: int)
    requires
        len >= 0,
        from_rate > 0,
        to_rate >= 0,
    ensures
        0 <= resampled_len(len, from_rate, to_rate),
        resampled_len(len, from_rate, to_rate) * from_rate <= len * to_rate,
        len * to_rate < (resampled_len(len, from_rate, to_rate) + 1) * from_rate,
{
    let n = len * to_rate;
    assert(n >= 0) by (nonlinear_arith)
        requires
            n == len * to_rate,
            len >= 0,
            to_rate >= 0,
    ;
    vstd::arithmetic::div_mod::lemma_fundamental_div_mod(n, from_rate);
    vstd::arithmetic::div_mod::lemma_mod_bound(n, from_rate);
    let q = n / from_rate;
    let r = n % from_rate;
    assert(q >= 0 && q * from_rate <= n && n < (q + 1) * from_rate) by (nonlinear_arith)
        requires
            n == from_rate * q + r,
            0 <= r < from_rate,
            n >= 0,
    ;
}

/// A constant signal stays the same constant at every rate.
pub proof fn lemma_resample_constant(n: nat, value: i32, from_rate: int, to_rate: int)
    requires
        from_rate > 0,
        to_rate >= 0,
    ensures
        resampled(Seq::new(n, |i: int| value), from_rate, to_rate) == Seq::new(
            resampled_len(n as int, from_rate, to_rate) as nat,
            |i: int| value,
        ),
{
    let s = Seq::new(n, |i: int| value);
    let out = resampled(s, from_rate, to_rate);
    lemma_resampled_len_bounds(n as int, from_rate, to_rate);
    assert forall|k: int| 0 <= k < out.len() implies out[k] == value by {
        lemma_source_index_in_range(n as int, from_rate, to_rate, k);
        lemma_blend_between(
            value as int,
            value as int,
            source_offset(k, from_rate, to_rate),
            to_rate,
        );
    }
    assert(out =~= Seq::new(resampled_len(n as int, from_rate, to_rate) as nat, |i: int| value));
}

/// The number of resampled samples is within one of the exact quotient
/// `len * to_rate / from_rate`: it is that quotient rounded down.
pub proof fn lemma_resample_len_within_one(s: Seq<i32>, from_rate: u32, to_rate: u32)
    requires
        from_rate > 0,
    ensures
        ({
            let n = resampled(s, from_rate as int, to_rate as int).len();
            &&& n * from_rate <= s.len() * to_rate < (n + 1) * from_rate
            &&& n == (s.len() * to_rate) / (from_rate as int)
        }),
{
    lemma_resampled_len_bounds(s.len() as int, from_rate as int, to_rate as int);
}

/// Resamples by linear interpolation. Output sample `i` stands at source
/// position `i * from_rate / to_rate`.
pub fn resample(samples: &[i32], from_rate: u32, to_rate: u32) -> (out: Vec<i32>)
    requires
        samples.len() == 0 || from_rate > 0 || to_rate == 0,
        resampled_len(samples.len() as int, from_rate as int, to_rate as int) <= usize::MAX,
    ensures
        out@ == resampled(samples@, from_rate as int, to_rate as int),
        from_rate > 0 ==> out@.len() == (samples@.len() * to_rate) / (from_rate as int),
        from_rate > 0 ==> out@.len() * from_rate <= samples@.len() * to_rate < (out@.len() + 1)
            * from_rate,
        from_rate > 0 && from_rate == to_rate ==> out@ == samples@,
{
    proof {
        if from_rate > 0 {
            lemma_resample_len_within_one(samples@, from_rate, to_rate);
            if from_rate == to_rate {
                lemma_resample_same_rate(samples@, from_rate as int);
            }
        }
    }
    let len: usize = samples.len();
    let mut out: Vec<i32> = Vec::new();
    if len == 0 || from_rate == 0 {
        proof {
            if from_rate > 0 {
                assert(0 * (to_rate as int) == 0) by (nonlinear_arith);
            }
            assert(out@ =~= resampled(samples@, from_rate as int, to_rate as int));
        }
        return out;
    }
    proof {
        lemma_resampled_len_bounds(len as int, from_rate as int, to_rate as int);
        assert(len * to_rate <= 0xffff_ffff_ffff_ffff * 0xffff_ffff) by (nonlinear_arith)
            requires
                0 <= len <= 0xffff_ffff_ffff_ffff,
                0 <= to_rate <= 0xffff_ffff,
        ;
    }
    let out_len: usize = ((len as u128 * to_rate as u128) / from_rate as u128) as usize;
    let mut i: usize = 0;
    while i < out_len
        invariant
            i <= out_len,
            len == samples.len(),
            len > 0,
            from_rate > 0,
            out_len == resampled_len(len as int, from_rate as int, to_rate as int),
            out.len() == i,
            forall|k: int|
                0 <= k < i ==> out[k] == resampled_at(
                    samples@,
                    from_rate as int,
                    to_rate as int,
                    k,
                ),
        decreases out_len - i,
    {
        proof {
            lemma_source_index_in_range(len as int, from_rate as int, to_rate as int, i as int);
            assert(i * from_rate <= 0xffff_ffff_ffff_ffff * 0xffff_ffff) by (nonlinear_arith)
                requires
                    0 <= i <= 0xffff_ffff_ffff_ffff,
                    0 <= from_rate <= 0xffff_ffff,
            ;
        }
        let position: u128 = i as u128 * from_rate as u128;
        let idx: usize = (position / to_rate as u128) as usize;
        let offset: u128 = position % to_rate as u128;
        let value: i32 = if idx + 1 < len {
            let a: i128 = samples[idx] as i128;
            let b: i128 = samples[idx + 1] as i128;
            let unit: i128 = to_rate as i128;
            let off: i128 = offset as i128;
            proof {
                lemma_blend_in_range(a as int, b as int, off as int, unit as int);
                assert(-0x8000_0000 * 0xffff_ffff <= a * (unit - off) <= 0x8000_0000 * 0xffff_ffff)
                    by (nonlinear_arith)
                    requires
                        -0x8000_0000 <= a <= 0x7fff_ffff,
                        0 < unit - off <= 0xffff_ffff,
                ;
                assert(-0x8000_0000 * 0xffff_ffff <= b * off <= 0x8000_0000 * 0xffff_ffff)
                    by (nonlinear_arith)
                    requires
                        -0x8000_0000 <= b <= 0x7fff_ffff,
                        0 <= off <= 0xffff_ffff,
                ;
            }
            let weighted: i128 = a * (unit - off) + b * off;
            (weighted / unit) as i32
        } else {
            samples[idx]
        };
        out.push(value);
        i = i + 1;
    }
    proof {
        assert(out@ =~= resampled(samples@, from_rate as int, to_rate as int));
    }
    out
}

/// The two bytes of a 16-bit word, low byte first.
pub open spec fn le16(x: int) -> Seq<u8> {
    seq![(x % 256) as u8, (x / 256 % 256) as u8]
}

/// The four bytes of a 32-bit word, low byte first.
pub open spec fn le32(x: int) -> Seq<u8> {
    seq![
        (x % 256) as u8,
        (x / 256 % 256) as u8,
        (x / 65536 % 256) as u8,
        (x / 16777216 % 256) as u8,
    ]
}

/// The 16-bit word that holds a sample in two's complement.
pub open spec fn sample_word(sample: i16) -> int {
    if sample >= 0 {
        sample as int
    } else {
        sample + 65536
    }
}

/// The data chunk's payload: each sample as two bytes, low byte first.
pub open spec fn pcm_bytes(samples: Seq<i16>) -> Seq<u8> {
    Seq::new(2 * samples.len(), |j: int| le16(sample_word(samples[j / 2]))[j % 2])
}

/// The 44 bytes before the payload of a 16-bit integer WAVE file: the RIFF
/// chunk header with the size of all that follows it, the form type, the
/// 16-byte format chunk (integer samples, channel count, sample rate, bytes
/// per second, bytes per frame, bits per sample), and the data chunk header
/// with the payload's size.
pub open spec fn wav_header(channels: int, sample_rate: int, data_len: int) -> Seq<u8> {
    seq![0x52u8, 0x49u8, 0x46u8, 0x46u8] + le32(data_len + 36)
        + seq![0x57u8, 0x41u8, 0x56u8, 0x45u8]
        + seq![0x66u8, 0x6du8, 0x74u8, 0x20u8] + le32(16) + le16(1) + le16(channels)
        + le32(sample_rate) + le32(sample_rate * 2 * channels) + le16(2 * channels) + le16(16)
        + seq![0x64u8, 0x61u8, 0x74u8, 0x61u8] + le32(data_len)
}

/// The WAVE file that holds `samples` as interleaved 16-bit integers.
pub open spec fn wav_container(samples: Seq<i16>, channels: int, sample_rate: int) -> Seq<u8> {
    wav_header(channels, sample_rate, 2 * (samples.len() as int)) + pcm_bytes(samples)
}

/// Whether `len` samples taken at `source_rate` can be encoded: a rate is
/// known unless there is nothing to encode, and the payload at the target
/// rate fits the container's 32-bit sizes.
pub open spec fn encodable(len: int, source_rate: int) -> bool {
    &&& len == 0 || source_rate > 0
    &&& 2 * (if source_rate == TARGET_SAMPLE_RATE as int {
        len
    } else {
        resampled_len(len, source_rate, TARGET_SAMPLE_RATE as int)
    }) + 36 <= u32::MAX
}

/// `hound::Error`, the failure of the container writer. It is carried
/// through unopened; only its rendering as text is used.
#[verifier::external_type_specification]
#[verifier::external_body]
pub struct ExWavError(hound::Error);

/// Writes a WAVE file into memory with `hound::WavWriter`: `new` over a
/// cursor with an integer sample format, `write_sample` once for each sample
/// in order, then `finalize`; the cursor's bytes are the result.
///
/// Claimed of it: it succeeds where the samples make whole frames, and where
/// it succeeds the bytes are the 44-byte header that hound writes for at
/// most two channels of 16 bits, followed by the samples low byte first.
/// Under the preconditions hound has three ways to fail. `new` refuses a bit
/// depth that is not 8, 16, 24 or 32; `finalize` refuses a partial frame;
/// and either passes on a failure of the writer beneath it, which here is a
/// cursor over a vector in memory, whose writes and seeks do not fail below
/// the sizes that the preconditions allow. The preconditions keep hound's
/// unchecked 32-bit arithmetic on the byte rate and on the sizes from
/// overflowing, and its division by the sample rate from dividing by zero.
#[verifier::external_body]
fn write_wav(
    samples: &Vec<i16>,
    channels: u16,
    sample_rate: u32,
    bits_per_sample: u16,
) -> (r: Result<Vec<u8>, hound::Error>)
    requires
        1 <= channels <= 2,
        bits_per_sample == 16,
        sample_rate > 0,
        sample_rate * 2 * channels <= u32::MAX,
        2 * samples.len() + 36 <= u32::MAX,
    ensures
        (samples@.len() as int) % (channels as int) == 0 ==> r is Ok,
        r matches Ok(bytes) ==> bytes@ == wav_container(
            samples@,
            channels as int,
            sample_rate as int,
        ),
{
    let sample_format = hound::SampleFormat::Int;
    let format = hound::WavSpec { channels, sample_rate, bits_per_sample, sample_format };
    let mut cursor = std::io::Cursor::new(Vec::new());
    let mut writer = hound::WavWriter::new(&mut cursor, format)?;
    for sample in samples.iter() {
        writer.write_sample(*sample)?;
    }
    writer.finalize()?;
    Ok(cursor.into_inner())
}

/// What the encoder returns for what the container writer returned: the
/// bytes as they are, or the writer's failure as an audio error whose detail
/// is the failure rendered as text.
pub fn encoded(written: Result<Vec<u8>, hound::Error>) -> (r: Result<Vec<u8>, VoiceFlowError>)
    ensures
        match written {
            Ok(bytes) => r == Ok::<Vec<u8>, VoiceFlowError>(bytes),
            Err(failure) => r matches Err(VoiceFlowError::Audio(detail))
                && vstd::string::to_string_from_display_ensures::<hound::Error>(&failure, detail),
        },
{
    match written {
        Ok(bytes) => Ok(bytes),
        Err(e) => Err(VoiceFlowError::Audio(e.to_string())),
    }
}

/// Tells whether `encode_wav` accepts `len` samples taken at `source_rate`.
pub fn can_encode(len: usize, source_rate: u32) -> (ok: bool)
    ensures
        ok == encodable(len as int, source_rate as int),
{
    if source_rate == TARGET_SAMPLE_RATE {
        len <= 0x7fff_ffed
    } else if source_rate == 0 {
        len == 0
    } else {
        proof {
            assert(len * 16000 <= 0xffff_ffff_ffff_ffff * 16000) by (nonlinear_arith)
                requires
                    0 <= len <= 0xffff_ffff_ffff_ffff,
            ;
        }
        let out_len: u128 = (len as u128 * TARGET_SAMPLE_RATE as u128) / source_rate as u128;
        out_len <= 0x7fff_ffed
    }
}

/// Brings the samples to the target rate if they are not at it, quantizes
/// them and wraps them in a 16-bit mono WAVE container. It succeeds on every
/// input that can be encoded.
pub fn encode_wav(samples: &[i32], source_rate: u32) -> (r: Result<Vec<u8>, VoiceFlowError>)
    requires
        encodable(samples.len() as int, source_rate as int),
    ensures
        r matches Ok(bytes) && bytes@ == wav_container(
            quantized_all(at_target_rate(samples@, source_rate as int)),
            TARGET_CHANNELS as int,
            TARGET_SAMPLE_RATE as int,
        ),
{
    let conditioned: Vec<i32> = if source_rate != TARGET_SAMPLE_RATE {
        resample(samples, source_rate, TARGET_SAMPLE_RATE)
    } else {
        vstd::slice::slice_to_vec(samples)
    };
    let mut pcm: Vec<i16> = Vec::new();
    let mut i: usize = 0;
    while i < conditioned.len()
        invariant
            i <= conditioned.len(),
            pcm.len() == i,
            forall|k: int|
                0 <= k < i ==> pcm[k] == crate::audio::sample::quantized(conditioned[k] as int),
        decreases conditioned.len() - i,
    {
        pcm.push(quantize(conditioned[i]));
        i = i + 1;
    }
    proof {
        assert(pcm@ =~= quantized_all(conditioned@));
    }
    encoded(write_wav(&pcm, TARGET_CHANNELS, TARGET_SAMPLE_RATE, TARGET_BITS))
}

/// The four bytes "RIFF" that open the container.
pub open spec fn riff_tag() -> Seq<u8> {
    seq![0x52u8, 0x49u8, 0x46u8, 0x46u8]
}

/// The four bytes "WAVE" that name the container's form.
pub open spec fn wave_tag() -> Seq<u8> {
    seq![0x57u8, 0x41u8, 0x56u8, 0x45u8]
}

/// The header is 44 bytes long; it opens with the RIFF tag and names the
/// WAVE form at byte 8.
pub proof fn lemma_header_shape(channels: int, sample_rate: int, data_len: int)
    ensures
        wav_header(channels, sample_rate, data_len).len() == HEADER_LEN,
        wav_header(channels, sample_rate, data_len).subrange(0, 4) == riff_tag(),
        wav_header(channels, sample_rate, data_len).subrange(8, 12) == wave_tag(),
{
    let p1 = seq![0x52u8, 0x49u8, 0x46u8, 0x46u8] + le32(data_len + 36);
    assert(p1.len() == 8);
    let p2 = p1 + seq![0x57u8, 0x41u8, 0x56u8, 0x45u8];
    assert(p2.len() == 12);
    let p3 = p2 + seq![0x66u8, 0x6du8, 0x74u8, 0x20u8] + le32(16);
    assert(p3.len() == 20);
    let p4 = p3 + le16(1) + le16(channels);
    assert(p4.len() == 24);
    let p5 = p4 + le32(sample_rate) + le32(sample_rate * 2 * channels);
    assert(p5.len() == 32);
    let p6 = p5 + le16(2 * channels) + le16(16);
    assert(p6.len() == 36);
    let p7 = p6 + seq![0x64u8, 0x61u8, 0x74u8, 0x61u8] + le32(data_len);
    assert(p7.len() == 44);
    let h = wav_header(channels, sample_rate, data_len);
    assert(h == p7);
    assert forall|k: int| 0 <= k < 4 implies h[k] == riff_tag()[k] by {
        assert(h[k] == p1[k]);
    }
    assert forall|k: int| 0 <= k < 4 implies h[8 + k] == wave_tag()[k] by {
        assert(h[8 + k] == p2[8 + k]);
    }
    assert(h.subrange(0, 4) =~= riff_tag());
    assert(h.subrange(8, 12) =~= wave_tag());
}

/// A container is its 44-byte header and two bytes for each sample: it
/// opens with the RIFF tag, names the WAVE form at byte 8, and is longer
/// than its header as soon as it holds one sample.
pub proof fn lemma_container_shape(samples: Seq<i16>, channels: int, sample_rate: int)
    ensures
        wav_container(samples, channels, sample_rate).len() == HEADER_LEN + 2 * samples.len(),
        wav_container(samples, channels, sample_rate).subrange(0, 4) == riff_tag(),
        wav_container(samples, channels, sample_rate).subrange(8, 12) == wave_tag(),
        wav_container(samples, channels, sample_rate).subrange(
            HEADER_LEN as int,
            HEADER_LEN + 2 * samples.len(),
        ) == pcm_bytes(samples),
        samples.len() > 0 ==> wav_container(samples, channels, sample_rate).len() > HEADER_LEN,
{
    let h = wav_header(channels, sample_rate, 2 * (samples.len() as int));
    let p = pcm_bytes(samples);
    let c = wav_container(samples, channels, sample_rate);
    lemma_header_shape(channels, sample_rate, 2 * (samples.len() as int));
    assert(c == h + p);
    assert(h.len() == 44);
    assert(p.len() == 2 * samples.len());
    assert(c.len() == 44 + 2 * samples.len());
    assert(c.subrange(0, 4) =~= h.subrange(0, 4));
    assert(c.subrange(8, 12) =~= h.subrange(8, 12));
    assert(c.subrange(44, 44 + 2 * (samples.len() as int)) =~= p);
}

/// A 16-bit word is its low byte plus 256 times its high byte.
proof fn lemma_le16_joins(x: int)
    requires
        0 <= x < 65536,
    ensures
        le16(x)[0] as int + 256 * (le16(x)[1] as int) == x,
{
    let low = x % 256;
    let high = x / 256;
    assert(0 <= low < 256);
    assert(0 <= high < 256);
    assert(x == 256 * high + low);
    assert(high % 256 == high);
    assert(le16(x)[0] == low as u8);
    assert(le16(x)[1] == high as u8);
}

/// The two bytes of a sample tell which sample it is.
proof fn lemma_sample_from_bytes(x: i16, y: i16)
    requires
        le16(sample_word(x)) == le16(sample_word(y)),
    ensures
        x == y,
{
    let wx = sample_word(x);
    let wy = sample_word(y);
    assert(0 <= wx < 65536);
    assert(0 <= wy < 65536);
    lemma_le16_joins(wx);
    lemma_le16_joins(wy);
    assert(wx == wy);
}

/// Where the two bytes of sample `i` stand in the payload.
proof fn lemma_payload_pair(samples: Seq<i16>, i: int)
    requires
        0 <= i < samples.len(),
    ensures
        pcm_bytes(samples)[2 * i] == le16(sample_word(samples[i]))[0],
        pcm_bytes(samples)[2 * i + 1] == le16(sample_word(samples[i]))[1],
{
    assert((2 * i) / 2 == i);
    assert((2 * i) % 2 == 0);
    assert((2 * i + 1) / 2 == i);
    assert((2 * i + 1) % 2 == 1);
}

/// The payload tells which samples it holds.
proof fn lemma_payload_keeps_samples(a: Seq<i16>, b: Seq<i16>)
    requires
        pcm_bytes(a) == pcm_bytes(b),
    ensures
        a == b,
{
    assert(pcm_bytes(a).len() == 2 * a.len());
    assert(pcm_bytes(b).len() == 2 * b.len());
    assert(a.len() == b.len());
    assert forall|i: int| 0 <= i < a.len() implies a[i] == b[i] by {
        lemma_payload_pair(a, i);
        lemma_payload_pair(b, i);
        let ba = le16(sample_word(a[i]));
        let bb = le16(sample_word(b[i]));
        assert(ba.len() == 2);
        assert(bb.len() == 2);
        assert(ba[0] == bb[0]);
        assert(ba[1] == bb[1]);
        assert(ba =~= bb);
        lemma_sample_from_bytes(a[i], b[i]);
    }
    assert(a =~= b);
}

/// The container loses nothing of what it is given: two containers with the
/// same bytes hold the same samples.
pub proof fn lemma_container_keeps_samples(
    a: Seq<i16>,
    b: Seq<i16>,
    channels: int,
    sample_rate: int,
)
    requires
        wav_container(a, channels, sample_rate) == wav_container(b, channels, sample_rate),
    ensures
        a == b,
{
    lemma_container_shape(a, channels, sample_rate);
    lemma_container_shape(b, channels, sample_rate);
    assert(a.len() == b.len());
    lemma_payload_keeps_samples(a, b);
}

/// Silence stays silence: `n` zero amplitudes taken at any rate are encoded
/// as a well-formed container whose payload is all zero bytes, and which is
/// longer than its header wherever at least one sample is left at the target
/// rate.
pub proof fn lemma_silence_encodes(n: nat, source_rate: int)
    requires
        source_rate > 0,
    ensures
        ({
            let silence = Seq::new(n, |i: int| 0i32);
            let kept = at_target_rate(silence, source_rate);
            let file = wav_container(
                quantized_all(kept),
                TARGET_CHANNELS as int,
                TARGET_SAMPLE_RATE as int,
            );
            &&& file.len() == HEADER_LEN + 2 * kept.len()
            &&& file.subrange(0, 4) == riff_tag()
            &&& file.subrange(8, 12) == wave_tag()
            &&& forall|j: int| HEADER_LEN <= j < file.len() ==> file[j] == 0u8
            &&& kept.len() > 0 ==> file.len() > HEADER_LEN
            &&& source_rate == TARGET_SAMPLE_RATE ==> kept.len() == n
        }),
{
    let silence = Seq::new(n, |i: int| 0i32);
    let kept = at_target_rate(silence, source_rate);
    let pcm = quantized_all(kept);
    let file = wav_container(pcm, TARGET_CHANNELS as int, TARGET_SAMPLE_RATE as int);
    lemma_container_shape(pcm, TARGET_CHANNELS as int, TARGET_SAMPLE_RATE as int);
    assert forall|k: int| 0 <= k < kept.len() implies kept[k] == 0i32 by {
        if source_rate != TARGET_SAMPLE_RATE as int {
            lemma_source_index_in_range(n as int, source_rate, TARGET_SAMPLE_RATE as int, k);
            let off = source_offset(k, source_rate, TARGET_SAMPLE_RATE as int);
            assert(0 * (16000 - off) + 0 * off == 0) by (nonlinear_arith);
        }
    }
    assert forall|j: int| HEADER_LEN <= j < file.len() implies file[j] == 0u8 by {
        let d = j - HEADER_LEN;
        assert(file[j] == pcm_bytes(pcm)[d]);
        assert(pcm[d / 2] == 0i16);
    }
}

} // verus!
