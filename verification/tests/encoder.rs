use voiceflow::audio::encoder::{
    can_encode, encode_wav, encoded, resample, HEADER_LEN, TARGET_BITS, TARGET_CHANNELS,
    TARGET_SAMPLE_RATE,
};
use voiceflow::audio::sample::quantize;
use voiceflow::errors::VoiceFlowError;

#[test]
fn test_encode_wav_produces_valid_wav() {
    // 1 second of silence at 16kHz
    let floats = vec![0.0f32; 16000];
    let samples: Vec<i32> = floats.iter().map(|x| (x * 32768.0) as i32).collect();
    let wav = encode_wav(&samples, 16000).unwrap();

    // WAV header starts with RIFF
    assert_eq!(&wav[0..4], b"RIFF");
    assert!(wav.len() > 44); // header + data
}

#[test]
fn test_resample_halves_rate() {
    let floats: Vec<f32> = (0..1000).map(|i| (i as f32 / 1000.0).sin()).collect();
    let samples: Vec<i32> = floats.iter().map(|x| (x * 32768.0) as i32).collect();
    let resampled = resample(&samples, 48000, 16000);
    // Output should be roughly 1/3 of input
    let expected_len = (1000.0 * 16000.0 / 48000.0) as usize;
    assert!((resampled.len() as i64 - expected_len as i64).abs() <= 1);
}

#[test]
fn resample_same_rate_is_identity() {
    let samples: Vec<i32> = vec![0, 1, -1, 32768, -32768, 40000, -40000, i32::MAX, i32::MIN, 7];
    assert_eq!(resample(&samples, 16000, 16000), samples);
    assert_eq!(resample(&samples, 44100, 44100), samples);
    assert_eq!(resample(&samples, 1, 1), samples);
    assert_eq!(resample(&samples, u32::MAX, u32::MAX), samples);
}

#[test]
fn resample_length_is_floor_of_quotient() {
    let samples = vec![5i32; 1000];
    assert_eq!(resample(&samples, 48000, 16000).len(), 333);
    assert_eq!(resample(&samples, 44100, 16000).len(), 362);
    assert_eq!(resample(&samples, 8000, 16000).len(), 2000);
    assert_eq!(resample(&samples, 16000, 48000).len(), 3000);
    let exact = vec![5i32; 441];
    assert_eq!(resample(&exact, 44100, 16000).len(), 160);
    assert_eq!(resample(&vec![1i32, 2], 48000, 16000).len(), 0);
    assert_eq!(resample(&vec![1i32, 2, 3], 48000, 16000).len(), 1);
}

#[test]
fn resample_length_within_one_of_quotient() {
    let rates = [8000u32, 11025, 22050, 32000, 44100, 48000, 96000];
    for &rate in rates.iter() {
        for n in [1usize, 2, 3, 10, 100, 999, 4410] {
            let samples = vec![0i32; n];
            let out = resample(&samples, rate, TARGET_SAMPLE_RATE);
            let exact = n as f64 * 16000.0 / rate as f64;
            assert!((out.len() as f64 - exact).abs() <= 1.0);
            assert!(out.len() as f64 <= exact);
        }
    }
}

#[test]
fn resample_empty_and_zero_rates() {
    let none: Vec<i32> = Vec::new();
    assert_eq!(resample(&none, 48000, 16000), none);
    assert_eq!(resample(&none, 0, 16000), none);
    assert_eq!(resample(&none, 0, 0), none);
    assert_eq!(resample(&vec![1i32, 2, 3], 48000, 0), none);
    assert_eq!(resample(&vec![1i32, 2, 3], 0, 0), none);
}

#[test]
fn resample_upsampling_blends_neighbours() {
    let samples = vec![0i32, 300, 600];
    assert_eq!(resample(&samples, 16000, 32000), vec![0, 150, 300, 450, 600, 600]);
}

#[test]
fn resample_downsampling_picks_and_blends() {
    let samples = vec![0i32, 100, 200, 300, 400, 500, 600];
    // positions 0, 3, 6 of the source
    assert_eq!(resample(&samples, 48000, 16000), vec![0, 300]);
    // positions 0, 1.5, 3, 4.5 of the source
    assert_eq!(resample(&samples, 3, 2), vec![0, 150, 300, 450]);
}

#[test]
fn resample_blend_rounds_toward_zero() {
    assert_eq!(resample(&vec![-1i32, 0], 1, 2), vec![-1, 0, 0, 0]);
    assert_eq!(resample(&vec![1i32, 0], 1, 2), vec![1, 0, 0, 0]);
    assert_eq!(resample(&vec![-3i32, 0], 1, 2), vec![-3, -1, 0, 0]);
    assert_eq!(resample(&vec![3i32, 0], 1, 2), vec![3, 1, 0, 0]);
    // a third and two thirds of the way from 0 to 10 and from 0 to -10
    assert_eq!(resample(&vec![0i32, 10], 1, 3), vec![0, 3, 6, 10, 10, 10]);
    assert_eq!(resample(&vec![0i32, -10], 1, 3), vec![0, -3, -6, -10, -10, -10]);
}

#[test]
fn resample_extreme_amplitudes_do_not_overflow() {
    let samples = vec![i32::MAX, i32::MIN, i32::MAX];
    let out = resample(&samples, 16000, 48000);
    assert_eq!(out.len(), 9);
    assert_eq!(out[0], i32::MAX);
    assert_eq!(out[3], i32::MIN);
    assert_eq!(out[6], i32::MAX);
    assert_eq!(out[8], i32::MAX);
    let wide = resample(&samples, u32::MAX, u32::MAX - 1);
    assert_eq!(wide.len(), 2);
    assert_eq!(wide[0], i32::MAX);
}

#[test]
fn quantize_exact_values() {
    assert_eq!(quantize(0), 0);
    assert_eq!(quantize(32768), 32767);
    assert_eq!(quantize(-32768), -32767);
    assert_eq!(quantize(16384), 16383);
    assert_eq!(quantize(-16384), -16383);
    assert_eq!(quantize(32767), 32766);
    assert_eq!(quantize(-32767), -32766);
    assert_eq!(quantize(1), 0);
    assert_eq!(quantize(-1), 0);
    assert_eq!(quantize(2), 1);
    assert_eq!(quantize(-2), -1);
}

#[test]
fn quantize_clamps_beyond_full_scale() {
    assert_eq!(quantize(32769), 32767);
    assert_eq!(quantize(40000), 32767);
    assert_eq!(quantize(-40000), -32767);
    assert_eq!(quantize(i32::MAX), 32767);
    assert_eq!(quantize(i32::MIN), -32767);
}

#[test]
fn quantize_matches_float_rule_on_exact_inputs() {
    for v in [-32768i32, -30000, -12345, -1024, -1, 0, 1, 1024, 12345, 30000, 32768] {
        let x = v as f64 / 32768.0;
        let expected = (x.clamp(-1.0, 1.0) * 32767.0) as i16;
        assert_eq!(quantize(v), expected);
    }
}

#[test]
fn encode_wav_exact_bytes() {
    let wav = encode_wav(&vec![0i32, 16384, -32768], 16000).unwrap();
    let expected: Vec<u8> = vec![
        b'R', b'I', b'F', b'F', 42, 0, 0, 0, b'W', b'A', b'V', b'E', // RIFF chunk
        b'f', b'm', b't', b' ', 16, 0, 0, 0, // format chunk, 16 bytes
        1, 0, // integer samples
        1, 0, // one channel
        0x80, 0x3e, 0, 0, // 16000 samples per second
        0x00, 0x7d, 0, 0, // 32000 bytes per second
        2, 0, // two bytes per frame
        16, 0, // sixteen bits per sample
        b'd', b'a', b't', b'a', 6, 0, 0, 0, // data chunk, 6 bytes
        0x00, 0x00, 0xff, 0x3f, 0x01, 0x80,
    ];
    assert_eq!(wav, expected);
}

#[test]
fn encode_wav_reads_back_with_hound() {
    let samples = vec![0i32, 1000, -1000, 32768, -32768, 50000, -50000, 12345];
    let wav = encode_wav(&samples, 16000).unwrap();
    let mut reader = hound::WavReader::new(std::io::Cursor::new(wav)).unwrap();
    let spec = reader.spec();
    assert_eq!(spec.channels, 1);
    assert_eq!(spec.sample_rate, 16000);
    assert_eq!(spec.bits_per_sample, 16);
    assert_eq!(spec.sample_format, hound::SampleFormat::Int);
    let read: Vec<i16> = reader.samples::<i16>().map(|s| s.unwrap()).collect();
    let expected: Vec<i16> = samples.iter().map(|v| quantize(*v)).collect();
    assert_eq!(read, expected);
    assert_eq!(read, vec![0, 999, -999, 32767, -32767, 32767, -32767, 12344]);
}

#[test]
fn encode_wav_resamples_to_target_rate() {
    let samples: Vec<i32> = (0..480).map(|i| i * 10).collect();
    let wav = encode_wav(&samples, 48000).unwrap();
    assert_eq!(wav.len(), HEADER_LEN + 2 * 160);
    let mut reader = hound::WavReader::new(std::io::Cursor::new(wav)).unwrap();
    assert_eq!(reader.spec().sample_rate, 16000);
    let read: Vec<i16> = reader.samples::<i16>().map(|s| s.unwrap()).collect();
    let expected: Vec<i16> = resample(&samples, 48000, 16000).iter().map(|v| quantize(*v)).collect();
    assert_eq!(read, expected);
    assert_eq!(read[1], quantize(30));
}

#[test]
fn encode_wav_of_nothing_is_header_only() {
    let none: Vec<i32> = Vec::new();
    let wav = encode_wav(&none, 16000).unwrap();
    assert_eq!(wav.len(), 44);
    assert_eq!(&wav[0..4], b"RIFF");
    assert_eq!(&wav[8..12], b"WAVE");
    assert_eq!(&wav[40..44], &[0u8, 0, 0, 0]);
    let zero_rate = encode_wav(&none, 0).unwrap();
    assert_eq!(zero_rate, wav);
    // two samples at 48 kHz leave none at 16 kHz
    assert_eq!(encode_wav(&vec![0i32, 0], 48000).unwrap().len(), 44);
}

#[test]
fn encode_wav_silence_has_valid_header_and_zero_payload() {
    for n in [1usize, 2, 100, 16000] {
        let wav = encode_wav(&vec![0i32; n], 16000).unwrap();
        assert_eq!(&wav[0..4], b"RIFF");
        assert_eq!(&wav[8..12], b"WAVE");
        assert_eq!(wav.len(), 44 + 2 * n);
        assert!(wav.len() > HEADER_LEN);
        assert!(wav[44..].iter().all(|b| *b == 0));
    }
    let resampled = encode_wav(&vec![0i32; 4410], 44100).unwrap();
    assert_eq!(resampled.len(), 44 + 2 * 1600);
    assert!(resampled[44..].iter().all(|b| *b == 0));
}

#[test]
fn can_encode_tells_the_precondition() {
    assert!(can_encode(0, 0));
    assert!(!can_encode(1, 0));
    assert!(can_encode(0, 16000));
    assert!(can_encode(16000, 16000));
    assert!(can_encode(48000, 48000));
    assert!(can_encode(2_147_483_629, 16000));
    assert!(!can_encode(2_147_483_630, 16000));
    assert!(can_encode(3 * 2_147_483_629, 48000));
    assert!(!can_encode(3 * 2_147_483_630, 48000));
    assert!(!can_encode(usize::MAX, 1));
}

#[test]
fn encode_wav_succeeds_on_every_encodable_input() {
    for rate in [1u32, 7, 8000, 11025, 16000, 22050, 44100, 48000, 96000, u32::MAX] {
        for n in [0usize, 1, 2, 3, 100, 1000] {
            assert!(can_encode(n, rate));
            let samples: Vec<i32> = (0..n as i32).map(|i| i * 37 - 5000).collect();
            let wav = encode_wav(&samples, rate).unwrap();
            assert_eq!(wav.len(), 44 + 2 * resample(&samples, rate, 16000).len());
        }
    }
}

#[test]
fn encode_wav_clamps_scales_and_truncates() {
    // the amplitudes 1.0, -1.0, 0.5 and 2.0
    let floats = [1.0f32, -1.0, 0.5, 2.0];
    let samples: Vec<i32> = floats.iter().map(|x| (x * 32768.0) as i32).collect();
    assert_eq!(samples, vec![32768, -32768, 16384, 65536]);
    let wav = encode_wav(&samples, 16000).unwrap();
    assert_eq!(wav.len(), 44 + 8);
    assert_eq!(&wav[wav.len() - 8..], &[0xff, 0x7f, 0x01, 0x80, 0xff, 0x3f, 0xff, 0x7f]);
}

#[test]
fn encode_wav_header_declares_the_target_format() {
    for rate in [8000u32, 16000, 44100, 48000] {
        let wav = encode_wav(&vec![123i32; 441], rate).unwrap();
        assert_eq!(&wav[0..4], b"RIFF");
        assert_eq!(&wav[8..16], b"WAVEfmt ");
        assert_eq!(&wav[20..22], &[1, 0]); // integer PCM
        assert_eq!(&wav[22..24], &[1, 0]); // one channel
        assert_eq!(&wav[24..28], &16000u32.to_le_bytes());
        assert_eq!(&wav[34..36], &[16, 0]); // sixteen bits
        let kept = resample(&vec![123i32; 441], rate, 16000).len();
        assert_eq!(wav.len(), 44 + 2 * kept);
        assert_eq!(&wav[4..8], &((36 + 2 * kept) as u32).to_le_bytes());
        assert_eq!(&wav[40..44], &((2 * kept) as u32).to_le_bytes());
    }
}

#[test]
fn encoded_maps_the_writer_failure_to_an_audio_error() {
    let err = encoded(Err(hound::Error::TooWide)).unwrap_err();
    assert!(matches!(
        &err,
        VoiceFlowError::Audio(m) if m == "The sample has more bits than the destination type."
    ));
    let err = encoded(Err(hound::Error::Unsupported)).unwrap_err();
    assert_eq!(err.message(), "Audio error: The wave format of the file is not supported.");
    let err = encoded(Err(hound::Error::FormatError("bad"))).unwrap_err();
    assert_eq!(err.message(), "Audio error: Ill-formed WAVE file: bad");
}

#[test]
fn encoded_passes_the_bytes_on() {
    assert_eq!(encoded(Ok(vec![1, 2, 3])).unwrap(), vec![1, 2, 3]);
    assert_eq!(encoded(Ok(Vec::new())).unwrap(), Vec::<u8>::new());
}

#[test]
fn target_format_is_sixteen_bit_mono_at_sixteen_kilohertz() {
    assert_eq!(TARGET_SAMPLE_RATE, 16000);
    assert_eq!(TARGET_CHANNELS, 1);
    assert_eq!(TARGET_BITS, 16);
    assert_eq!(HEADER_LEN, 44);
}

#[test]
fn resample_agrees_with_the_formula_on_many_inputs() {
    let mut seed: u64 = 0x2545_f491_4f6c_dd1d;
    let mut next = move || {
        seed ^= seed << 13;
        seed ^= seed >> 7;
        seed ^= seed << 17;
        seed
    };
    let rates = [1u32, 2, 3, 7, 8000, 11025, 16000, 22050, 44100, 48000, 96000, u32::MAX];
    for &from in rates.iter() {
        for &to in rates.iter() {
            let n = (next() % 40) as usize + 1;
            if (n as u128 * to as u128) / from as u128 > 100_000 {
                continue;
            }
            let samples: Vec<i32> = (0..n).map(|_| next() as u32 as i32).collect();
            let out = resample(&samples, from, to);
            let expected_len = (n as u128 * to as u128 / from as u128) as usize;
            assert_eq!(out.len(), expected_len);
            for (i, value) in out.iter().enumerate() {
                let position = i as u128 * from as u128;
                let idx = (position / to as u128) as usize;
                let offset = (position % to as u128) as i128;
                let expected = if idx + 1 < n {
                    let weighted = samples[idx] as i128 * (to as i128 - offset)
                        + samples[idx + 1] as i128 * offset;
                    (weighted / to as i128) as i32
                } else {
                    samples[idx.min(n - 1)]
                };
                assert_eq!(*value, expected);
                if idx + 1 < n {
                    let lo = samples[idx].min(samples[idx + 1]);
                    let hi = samples[idx].max(samples[idx + 1]);
                    assert!(lo <= *value && *value <= hi);
                }
            }
        }
    }
}

#[test]
fn resample_keeps_a_constant_signal() {
    for (from, to) in [(48000u32, 16000u32), (44100, 16000), (8000, 16000), (16000, 44100)] {
        let out = resample(&vec![-12345i32; 500], from, to);
        assert!(!out.is_empty());
        assert!(out.iter().all(|v| *v == -12345));
    }
}

#[test]
fn quantize_is_odd_and_monotone() {
    let mut previous = quantize(-70000);
    for v in (-70000i32..=70000).step_by(7) {
        let q = quantize(v);
        assert!(previous <= q);
        assert_eq!(quantize(-v), -q);
        assert!(-32767 <= q && q <= 32767);
        previous = q;
    }
}
