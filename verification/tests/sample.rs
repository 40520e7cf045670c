use voiceflow::audio::sample::{block_rms, downmix, from_pcm16, isqrt, FULL_SCALE, PCM_PEAK};

#[test]
fn constants_are_the_sixteen_bit_scale() {
    assert_eq!(FULL_SCALE, 32768);
    assert_eq!(PCM_PEAK, 32767);
}

#[test]
fn from_pcm16_keeps_the_value() {
    assert_eq!(from_pcm16(0), 0);
    assert_eq!(from_pcm16(1), 1);
    assert_eq!(from_pcm16(-1), -1);
    assert_eq!(from_pcm16(i16::MAX), 32767);
    assert_eq!(from_pcm16(i16::MIN), -32768);
}

#[test]
fn downmix_mono_is_identity() {
    let data = vec![5i32, -7, 0, i32::MAX, i32::MIN];
    assert_eq!(downmix(&data, 1), data);
}

#[test]
fn downmix_stereo_averages_each_frame() {
    assert_eq!(downmix(&[100, 200, -50, -51, 7, 8], 2), vec![150, -50, 7]);
}

#[test]
fn downmix_rounds_toward_zero() {
    assert_eq!(downmix(&[1, 0], 2), vec![0]);
    assert_eq!(downmix(&[-1, 0], 2), vec![0]);
    assert_eq!(downmix(&[-3, 0], 2), vec![-1]);
    assert_eq!(downmix(&[3, 0], 2), vec![1]);
    assert_eq!(downmix(&[1, 1, 2], 3), vec![1]);
    assert_eq!(downmix(&[-1, -1, -2], 3), vec![-1]);
}

#[test]
fn downmix_partial_frame_divides_by_channel_count() {
    assert_eq!(downmix(&[10, 20, 30], 2), vec![15, 15]);
    assert_eq!(downmix(&[9], 3), vec![3]);
    assert_eq!(downmix(&[1, 2, 3, 4, 5, 6, 7], 3), vec![2, 5, 2]);
}

#[test]
fn downmix_of_nothing_is_nothing() {
    let none: Vec<i32> = Vec::new();
    assert_eq!(downmix(&none, 1), none);
    assert_eq!(downmix(&none, 2), none);
    assert_eq!(downmix(&none, u16::MAX), none);
}

#[test]
fn downmix_extremes_do_not_overflow() {
    assert_eq!(downmix(&[i32::MAX, i32::MAX], 2), vec![i32::MAX]);
    assert_eq!(downmix(&[i32::MIN, i32::MIN], 2), vec![i32::MIN]);
    assert_eq!(downmix(&[i32::MAX, i32::MIN], 2), vec![0]);
    let many = vec![i32::MIN; 65535];
    assert_eq!(downmix(&many, 65535), vec![i32::MIN]);
}

#[test]
fn isqrt_exact_values() {
    assert_eq!(isqrt(0), 0);
    assert_eq!(isqrt(1), 1);
    assert_eq!(isqrt(2), 1);
    assert_eq!(isqrt(3), 1);
    assert_eq!(isqrt(4), 2);
    assert_eq!(isqrt(15), 3);
    assert_eq!(isqrt(16), 4);
    assert_eq!(isqrt(17), 4);
    assert_eq!(isqrt(1_000_000), 1000);
    assert_eq!(isqrt(999_999), 999);
    assert_eq!(isqrt(1 << 62), 1 << 31);
    assert_eq!(isqrt((1 << 62) - 1), (1 << 31) - 1);
    assert_eq!(isqrt(u64::MAX), u32::MAX);
    assert_eq!(isqrt((u32::MAX as u64) * (u32::MAX as u64)), u32::MAX);
    assert_eq!(isqrt((u32::MAX as u64) * (u32::MAX as u64) - 1), u32::MAX - 1);
}

#[test]
fn block_rms_of_nothing_is_none() {
    assert_eq!(block_rms(&[]), None);
}

#[test]
fn block_rms_exact_values() {
    assert_eq!(block_rms(&[0]), Some(0));
    assert_eq!(block_rms(&[0, 0, 0]), Some(0));
    assert_eq!(block_rms(&[5]), Some(5));
    assert_eq!(block_rms(&[-5]), Some(5));
    // mean of squares (9 + 16) / 2 = 12, root 3
    assert_eq!(block_rms(&[3, 4]), Some(3));
    // mean of squares (9 + 16 + 144) / 3 = 56, root 7
    assert_eq!(block_rms(&[3, -4, 12]), Some(7));
    assert_eq!(block_rms(&[32768, -32768, 32768, -32768]), Some(32768));
    assert_eq!(block_rms(&[i32::MIN, i32::MIN]), Some(1 << 31));
    assert_eq!(block_rms(&[i32::MAX]), Some(i32::MAX as u32));
}

#[test]
fn block_rms_of_a_full_scale_square_wave_is_full_scale() {
    let block: Vec<i32> = (0..480).map(|i| if i % 2 == 0 { FULL_SCALE } else { -FULL_SCALE }).collect();
    assert_eq!(block_rms(&block), Some(FULL_SCALE as u32));
}

#[test]
fn isqrt_is_the_floor_of_the_root_on_many_inputs() {
    let mut seed: u64 = 0x9e37_79b9_7f4a_7c15;
    for _ in 0..2000 {
        seed ^= seed << 13;
        seed ^= seed >> 7;
        seed ^= seed << 17;
        let m = seed >> (seed % 64);
        let r = isqrt(m) as u128;
        assert!(r * r <= m as u128);
        assert!((r + 1) * (r + 1) > m as u128);
    }
}

#[test]
fn downmix_agrees_with_the_average_on_many_inputs() {
    let mut seed: u64 = 0x1234_5678_9abc_def1;
    let mut next = move || {
        seed ^= seed << 13;
        seed ^= seed >> 7;
        seed ^= seed << 17;
        seed
    };
    for channels in [1u16, 2, 3, 6, 8] {
        for _ in 0..50 {
            let n = (next() % 30) as usize;
            let data: Vec<i32> = (0..n).map(|_| next() as u32 as i32).collect();
            let mono = downmix(&data, channels);
            let expected: Vec<i32> = data
                .chunks(channels as usize)
                .map(|frame| (frame.iter().map(|s| *s as i64).sum::<i64>() / channels as i64) as i32)
                .collect();
            assert_eq!(mono, expected);
        }
    }
}
