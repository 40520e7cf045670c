//! Fixed-point amplitudes.
//!
//! An amplitude is a signed integer counted in units of 1/32768 of full
//! scale, so that 1.0 is `FULL_SCALE` and a 16-bit device sample is its own
//! amplitude. Values beyond full scale are representable and are clamped
//! only when a sample is quantized for the container. Every rounding in this
//! module truncates toward zero.

use vstd::prelude::*;

verus! {

/// The amplitude 1.0.
pub const FULL_SCALE: i32 = 32768;

/// The largest sample of the 16-bit container.
pub const PCM_PEAK: i32 = 32767;

/// The quotient of `a` by a positive `b`, rounded toward zero.
pub open spec fn div_toward_zero(a: int, b: int) -> int {
    if a >= 0 {
        a / b
    } else {
        -((-a) / b)
    }
}

/// `v` limited to the range from -1.0 to 1.0.
pub open spec fn clamped(v: int) -> int {
    if v < -(FULL_SCALE as int) {
        -(FULL_SCALE as int)
    } else if v > FULL_SCALE as int {
        FULL_SCALE as int
    } else {
        v
    }
}

/// The 16-bit sample that stands for amplitude `v`: clamped to full scale,
/// scaled by 32767 and truncated.
pub open spec fn quantized(v: int) -> int {
    div_toward_zero(clamped(v) * (PCM_PEAK as int), FULL_SCALE as int)
}

/// Each amplitude of `s` quantized.
pub open spec fn quantized_all(s: Seq<i32>) -> Seq<i16> {
    Seq::new(s.len(), |i: int| quantized(s[i] as int) as i16)
}

/// The sum of the amplitudes of `s`.
pub open spec fn total(s: Seq<i32>) -> int
    decreases s.len(),
{
    if s.len() == 0 {
        0
    } else {
        total(s.drop_last()) + s.last()
    }
}

/// The sum of the squared amplitudes of `s`.
pub open spec fn sum_squares(s: Seq<i32>) -> int
    decreases s.len(),
{
    if s.len() == 0 {
        0
    } else {
        sum_squares(s.drop_last()) + s.last() * s.last()
    }
}

/// The number of frames in `len` interleaved samples of `channels` channels;
/// a trailing partial frame counts.
pub open spec fn frame_count(len: int, channels: int) -> int {
    (len + channels - 1) / channels
}

/// The samples of frame `k`: up to `channels` consecutive samples.
pub open spec fn frame_at(data: Seq<i32>, channels: int, k: int) -> Seq<i32> {
    data.subrange(
        k * channels,
        if (k + 1) * channels <= data.len() {
            (k + 1) * channels
        } else {
            data.len() as int
        },
    )
}

/// The mono amplitude of one frame: the sum of its samples over the channel
/// count.
pub open spec fn frame_mean(frame: Seq<i32>, channels: int) -> int {
    div_toward_zero(total(frame), channels)
}

/// The mono block obtained from interleaved `data` by averaging each frame.
pub open spec fn downmixed(data: Seq<i32>, channels: int) -> Seq<i32> {
    Seq::new(
        frame_count(data.len() as int, channels) as nat,
        |k: int| frame_mean(frame_at(data, channels, k), channels) as i32,
    )
}

/// Whether `r` is the integer square root of `m`.
pub open spec fn is_floor_sqrt(r: int, m: int) -> bool {
    0 <= r && r * r <= m < (r + 1) * (r + 1)
}

/// The integer square root of `m`.
pub open spec fn floor_sqrt(m: int) -> int {
    choose|r: int| is_floor_sqrt(r, m)
}

/// The root-mean-square amplitude of a block: the integer square root of
/// the mean of the squares.
pub open spec fn rms(block: Seq<i32>) -> int {
    floor_sqrt(sum_squares(block) / (block.len() as int))
}

/// At most one integer is the integer square root of `m`.
pub proof fn lemma_floor_sqrt_unique(r: int, m: int)
    requires
        is_floor_sqrt(r, m),
    ensures
        floor_sqrt(m) == r,
{
    let c = floor_sqrt(m);
    assert(is_floor_sqrt(c, m));
    if c < r {
        assert((c + 1) * (c + 1) <= r * r) by (nonlinear_arith)
            requires
                0 <= c,
                c + 1 <= r,
        ;
    } else if r < c {
        assert((r + 1) * (r + 1) <= c * c) by (nonlinear_arith)
            requires
                0 <= r,
                r + 1 <= c,
        ;
    }
}

/// Rounding toward zero commutes with negation.
pub proof fn lemma_div_toward_zero_odd(a: int, b: int)
    requires
        b > 0,
    ensures
        div_toward_zero(-a, b) == -div_toward_zero(a, b),
{
    if a == 0 {
        assert(0int / b == 0) by (nonlinear_arith)
            requires
                b > 0,
        ;
    }
}

/// Rounding toward zero keeps the order of the dividends.
pub proof fn lemma_div_toward_zero_monotone(a: int, b: int, d: int)
    requires
        d > 0,
        a <= b,
    ensures
        div_toward_zero(a, d) <= div_toward_zero(b, d),
{
    if a >= 0 {
        vstd::arithmetic::div_mod::lemma_div_is_ordered(a, b, d);
    } else if b < 0 {
        vstd::arithmetic::div_mod::lemma_div_is_ordered(-b, -a, d);
    } else {
        vstd::arithmetic::div_mod::lemma_div_pos_is_pos(-a, d);
        vstd::arithmetic::div_mod::lemma_div_pos_is_pos(b, d);
    }
}

/// Quantization keeps the sign and the order of amplitudes, and never leaves
/// the container's range: it is odd, monotone and bounded by the peak.
pub proof fn lemma_quantized_shape(v: int, w: int)
    ensures
        quantized(-v) == -quantized(v),
        v <= w ==> quantized(v) <= quantized(w),
        -(PCM_PEAK as int) <= quantized(v) <= PCM_PEAK as int,
        quantized(0) == 0,
        quantized(FULL_SCALE as int) == PCM_PEAK as int,
{
    lemma_div_toward_zero_odd(clamped(v) * 32767, 32768);
    assert(clamped(-v) * 32767 == -(clamped(v) * 32767));
    if v <= w {
        lemma_div_toward_zero_monotone(clamped(v) * 32767, clamped(w) * 32767, 32768);
    }
    lemma_div_toward_zero_bounds(clamped(v) * 32767, 32768, -32767, 32767);
}

/// Widens a 16-bit device sample to an amplitude. The value is unchanged:
/// the device's unit is the amplitude's unit.
pub fn from_pcm16(sample: i16) -> (v: i32)
    ensures
        v == sample,
{
    sample as i32
}

/// Quantizes an amplitude for the 16-bit container.
pub fn quantize(v: i32) -> (q: i16)
    ensures
        q == quantized(v as int),
        -(PCM_PEAK as int) <= q <= PCM_PEAK as int,
{
    let c: i64 = if v < -FULL_SCALE {
        -(FULL_SCALE as i64)
    } else if v > FULL_SCALE {
        FULL_SCALE as i64
    } else {
        v as i64
    };
    let scaled: i64 = c * (PCM_PEAK as i64);
    let q: i64 = scaled / (FULL_SCALE as i64);
    q as i16
}

/// Where frame `k` of `len` samples begins and whether it is the last.
proof fn lemma_frame_count(len: int, channels: int, k: int)
    requires
        channels > 0,
        len >= 0,
        k >= 0,
    ensures
        k * channels < len ==> k < frame_count(len, channels),
        k * channels >= len && (k == 0 || (k - 1) * channels < len) ==> k == frame_count(
            len,
            channels,
        ),
{
    let x = len + channels - 1;
    let q = x / channels;
    vstd::arithmetic::div_mod::lemma_fundamental_div_mod(x, channels);
    vstd::arithmetic::div_mod::lemma_mod_bound(x, channels);
    let r = x % channels;
    assert(x == channels * q + r);
    if k * channels < len {
        assert(k < q) by (nonlinear_arith)
            requires
                k * channels < len,
                len + channels - 1 == channels * q + r,
                0 <= r < channels,
        ;
    }
    if k * channels >= len && (k == 0 || (k - 1) * channels < len) {
        assert(k == q) by (nonlinear_arith)
            requires
                k * channels >= len,
                k == 0 || (k - 1) * channels < len,
                len + channels - 1 == channels * q + r,
                0 <= r < channels,
                len >= 0,
                k >= 0,
        ;
    }
}

/// A quotient rounded toward zero stays within the bounds of the dividend
/// scaled down by the divisor.
pub proof fn lemma_div_toward_zero_bounds(a: int, b: int, lo: int, hi: int)
    requires
        b > 0,
        lo <= 0 <= hi,
        lo * b <= a <= hi * b,
    ensures
        lo <= div_toward_zero(a, b) <= hi,
{
    if a >= 0 {
        vstd::arithmetic::div_mod::lemma_fundamental_div_mod(a, b);
        vstd::arithmetic::div_mod::lemma_mod_bound(a, b);
        let q = a / b;
        let r = a % b;
        assert(0 <= q <= hi) by (nonlinear_arith)
            requires
                a == b * q + r,
                0 <= r < b,
                0 <= a <= hi * b,
                b > 0,
        ;
    } else {
        let n = -a;
        assert((-lo) * b == -(lo * b)) by (nonlinear_arith);
        vstd::arithmetic::div_mod::lemma_fundamental_div_mod(n, b);
        vstd::arithmetic::div_mod::lemma_mod_bound(n, b);
        let q = n / b;
        let r = n % b;
        assert(0 <= q <= -lo) by (nonlinear_arith)
            requires
                n == b * q + r,
                0 <= r < b,
                0 <= n <= (-lo) * b,
                b > 0,
        ;
    }
}

/// A single channel is its own downmix.
pub proof fn lemma_downmix_mono(data: Seq<i32>)
    ensures
        downmixed(data, 1) == data,
{
    assert forall|k: int| 0 <= k < data.len() implies frame_mean(frame_at(data, 1, k), 1)
        == data[k] by {
        let frame = frame_at(data, 1, k);
        assert(frame =~= seq![data[k]]);
        assert(frame.drop_last() =~= Seq::<i32>::empty());
        assert(total(frame) == total(frame.drop_last()) + frame.last());
        assert(total(frame.drop_last()) == 0);
    }
    assert(downmixed(data, 1) =~= data);
}

/// Averages each frame of interleaved `data` into one mono amplitude. A
/// trailing partial frame is divided by the full channel count as well.
pub fn downmix(data: &[i32], channels: u16) -> (mono: Vec<i32>)
    requires
        channels > 0,
    ensures
        mono@ == downmixed(data@, channels as int),
{
    let ch: usize = channels as usize;
    let len: usize = data.len();
    let mut mono: Vec<i32> = Vec::new();
    let mut start: usize = 0;
    proof {
        assert(0 * ch == 0) by (nonlinear_arith);
        lemma_frame_count(len as int, ch as int, 0);
    }
    while start < len
        invariant
            ch == channels,
            ch > 0,
            len == data.len(),
            start <= len,
            start < len ==> start == mono.len() * ch,
            start == len ==> mono.len() == frame_count(len as int, ch as int),
            mono.len() <= frame_count(len as int, ch as int),
            forall|k: int|
                0 <= k < mono.len() ==> mono[k] == frame_mean(
                    frame_at(data@, ch as int, k),
                    ch as int,
                ),
        decreases len - start,
    {
        let ghost k: int = mono.len() as int;
        let end: usize = if len - start >= ch {
            start + ch
        } else {
            len
        };
        let mut acc: i64 = 0;
        let mut j: usize = start;
        while j < end
            invariant
                start <= j <= end <= len,
                len == data.len(),
                end - start <= 65535,
                acc == total(data@.subrange(start as int, j as int)),
                -0x8000_0000 * (j - start) <= acc <= 0x7fff_ffff * (j - start),
            decreases end - j,
        {
            proof {
                assert(data@.subrange(start as int, j + 1).drop_last() =~= data@.subrange(
                    start as int,
                    j as int,
                ));
            }
            acc = acc + data[j] as i64;
            j = j + 1;
        }
        proof {
            assert((k + 1) * ch == k * ch + ch) by (nonlinear_arith);
            assert(frame_at(data@, ch as int, k) == data@.subrange(start as int, end as int));
            lemma_div_toward_zero_bounds(acc as int, ch as int, -0x8000_0000, 0x7fff_ffff);
            lemma_frame_count(len as int, ch as int, k);
            lemma_frame_count(len as int, ch as int, k + 1);
        }
        let mean: i64 = acc / (ch as i64);
        mono.push(mean as i32);
        start = end;
    }
    proof {
        if len == 0 {
            lemma_frame_count(0, ch as int, 0);
        }
        assert(mono@ =~= downmixed(data@, channels as int));
    }
    mono
}

/// The integer square root of `m`.
pub fn isqrt(m: u64) -> (r: u32)
    ensures
        r == floor_sqrt(m as int),
        is_floor_sqrt(r as int, m as int),
{
    let mut lo: u64 = 0;
    let mut hi: u64 = 0x1_0000_0000;
    assert(0x1_0000_0000 * 0x1_0000_0000 > 0xffff_ffff_ffff_ffff) by (nonlinear_arith);
    while hi - lo > 1
        invariant
            lo < hi <= 0x1_0000_0000,
            lo * lo <= m < hi * hi,
        decreases hi - lo,
    {
        let mid: u64 = lo + (hi - lo) / 2;
        assert(mid * mid <= 0xffff_ffff * 0xffff_ffff) by (nonlinear_arith)
            requires
                mid <= 0xffff_ffff,
        ;
        if mid * mid <= m {
            lo = mid;
        } else {
            hi = mid;
        }
    }
    proof {
        lemma_floor_sqrt_unique(lo as int, m as int);
    }
    lo as u32
}

/// The root-mean-square amplitude of a block, the loudness shown while
/// recording; `None` for a block without samples, which has no mean.
pub fn block_rms(block: &[i32]) -> (level: Option<u32>)
    ensures
        level is Some <==> block@.len() > 0,
        level matches Some(l) ==> l == rms(block@),
{
    let len: usize = block.len();
    if len == 0 {
        return None;
    }
    let mut sum: u128 = 0;
    let mut i: usize = 0;
    while i < len
        invariant
            i <= len,
            len == block.len(),
            sum == sum_squares(block@.subrange(0, i as int)),
            sum <= 0x4000_0000_0000_0000 * i,
        decreases len - i,
    {
        let x: i64 = block[i] as i64;
        proof {
            assert(block@.subrange(0, i + 1).drop_last() =~= block@.subrange(0, i as int));
            assert(0 <= x * x <= 0x4000_0000_0000_0000) by (nonlinear_arith)
                requires
                    -0x8000_0000 <= x <= 0x7fff_ffff,
            ;
        }
        let square: i64 = x * x;
        sum = sum + square as u128;
        i = i + 1;
    }
    proof {
        assert(block@.subrange(0, len as int) =~= block@);
        vstd::arithmetic::div_mod::lemma_fundamental_div_mod(sum as int, len as int);
        vstd::arithmetic::div_mod::lemma_mod_bound(sum as int, len as int);
        let q = sum as int / len as int;
        let r = sum as int % len as int;
        assert(0 <= q <= 0x4000_0000_0000_0000) by (nonlinear_arith)
            requires
                sum == len * q + r,
                0 <= r < len,
                0 <= sum <= 0x4000_0000_0000_0000 * len,
                len > 0,
        ;
    }
    let mean: u128 = sum / (len as u128);
    Some(isqrt(mean as u64))
}

} // verus!
