//! Samples, bytes and codes.

use voice_agent::downsampler::downsample_48_to_24;
use voice_agent::encoding::{from_base64, to_base64};
use voice_agent::framing::take_frames;
use voice_agent::ieee754::F32Bits;
use voice_agent::messages::AudioCaptureMessage;
use voice_agent::pcm::{bytes_to_samples, samples_to_bytes};
use voice_agent::pcm_capture::{
    choose_sample_rate, resample_16_to_24, resample_48_to_24, supports_sample_rate, PcmCapture,
    PcmCaptureMessage,
};
use voice_agent::pcm_playback::{
    restart_commands, restart_outcome, PcmPlayback, PcmPlaybackController, PlaybackCommand,
};
use voice_agent::ulaw::{compress, expand};
use voice_agent::voice_agent::capture::CaptureBuffer;

#[test]
fn test_resample_48_to_24_empty() {
    let input: Vec<i16> = vec![];
    let output = resample_48_to_24(&input);
    assert!(output.is_empty());
}

#[test]
fn test_resample_48_to_24_single() {
    let input = vec![100];
    let output = resample_48_to_24(&input);
    assert_eq!(output, vec![100]);
}

#[test]
fn test_resample_48_to_24_basic() {
    // Takes every 2nd sample
    let input = vec![0, 1, 2, 3, 4, 5, 6, 7];
    let output = resample_48_to_24(&input);
    assert_eq!(output, vec![0, 2, 4, 6]);
}

#[test]
fn test_resample_48_to_24_output_length() {
    // Output should be half the input length
    for len in [2, 4, 6, 8, 10, 100, 1000] {
        let input: Vec<i16> = (0..len).map(|i| i as i16).collect();
        let output = resample_48_to_24(&input);
        assert_eq!(output.len(), len / 2, "input len={}", len);
    }
}

#[test]
fn test_resample_16_to_24_empty() {
    let input: Vec<i16> = vec![];
    let output = resample_16_to_24(&input);
    assert!(output.is_empty());
}

#[test]
fn test_resample_16_to_24_single() {
    let input = vec![100];
    let output = resample_16_to_24(&input);
    assert_eq!(output, vec![100]);
}

#[test]
fn test_resample_16_to_24_two_samples() {
    // 2 input samples -> 3 output samples
    let input = vec![0, 300];
    let output = resample_16_to_24(&input);
    assert_eq!(output.len(), 3);
    assert_eq!(output[0], 0);
    assert_eq!(output[1], 200); // (0 * 1 + 300 * 2) / 3 = 200
    assert_eq!(output[2], 300); // last sample
}

#[test]
fn test_resample_16_to_24_four_samples() {
    // 4 input samples -> 6 output samples
    let input = vec![0, 300, 600, 900];
    let output = resample_16_to_24(&input);
    assert_eq!(output.len(), 6);

    // out[0] at 0: in[0] = 0
    assert_eq!(output[0], 0);

    // out[1] at 2/3: between in[0] and in[1], frac=2
    assert_eq!(output[1], 200);

    // out[2] at 4/3: between in[1] and in[2], frac=1
    assert_eq!(output[2], 400);

    // out[3] at 2: in[2] = 600
    assert_eq!(output[3], 600);

    // out[4] at 8/3: between in[2] and in[3], frac=2
    assert_eq!(output[4], 800);

    // out[5] at 10/3: beyond the last sample
    assert_eq!(output[5], 900);
}

#[test]
fn test_resample_16_to_24_output_length() {
    // Output should be 1.5x input length (input * 3 / 2)
    for len in [2, 4, 6, 8, 10, 100, 320, 1000] {
        let input: Vec<i16> = (0..len).map(|i| i as i16).collect();
        let output = resample_16_to_24(&input);
        let expected_len = (len * 3) / 2;
        assert_eq!(output.len(), expected_len, "input len={}", len);
    }
}

#[test]
fn test_resample_16_to_24_constant_signal() {
    // A constant signal should remain constant after resampling
    let input: Vec<i16> = vec![1000; 100];
    let output = resample_16_to_24(&input);
    assert_eq!(output.len(), 150);
    for sample in output {
        assert_eq!(sample, 1000);
    }
}

#[test]
fn test_resample_16_to_24_realistic_chunk() {
    // Test with a realistic chunk size (320 samples from 16kHz = 20ms)
    let input: Vec<i16> = (0..320).map(|i| (i * 100) as i16).collect();
    let output = resample_16_to_24(&input);
    // 320 * 3 / 2 = 480
    assert_eq!(output.len(), 480);

    // First sample should be unchanged
    assert_eq!(output[0], 0);

    // Values should be monotonically increasing (since input is)
    for i in 1..output.len() {
        assert!(output[i] >= output[i - 1], "output should be monotonic at {}", i);
    }
}

#[test]
fn test_resample_roundtrip_length() {
    // If we resample 16k->24k->48k or similar, check lengths are as expected
    let input_16k: Vec<i16> = vec![0; 320]; // 20ms at 16kHz
    let output_24k = resample_16_to_24(&input_16k);
    assert_eq!(output_24k.len(), 480); // 20ms at 24kHz

    let input_48k: Vec<i16> = vec![0; 960]; // 20ms at 48kHz
    let output_24k = resample_48_to_24(&input_48k);
    assert_eq!(output_24k.len(), 480); // 20ms at 24kHz
}

#[test]
fn odd_lengths_keep_the_last_sample() {
    assert_eq!(resample_48_to_24(&[1, 2, 3]), vec![1, 3]);
    assert_eq!(resample_16_to_24(&[0, 3, 6]), vec![0, 2, 4, 6]);
}

#[test]
fn interpolation_rounds_towards_zero() {
    assert_eq!(resample_16_to_24(&[0, -1]), vec![0, 0, -1]);
    assert_eq!(resample_16_to_24(&[0, -2]), vec![0, -1, -2]);
    assert_eq!(resample_16_to_24(&[i16::MIN, i16::MAX, i16::MIN, i16::MIN]).len(), 6);
    assert_eq!(
        resample_16_to_24(&[i16::MIN, i16::MAX, i16::MIN, i16::MIN]),
        vec![-32768, 10922, 10922, -32768, -32768, -32768]
    );
}

#[test]
fn interpolation_stays_in_range() {
    let input: Vec<i16> = (0..97).map(|i| ((i * 7919) % 2001) as i16 - 1000).collect();
    for sample in resample_16_to_24(&input) {
        assert!((-1000..=1000).contains(&sample));
    }
    let output = resample_16_to_24(&input);
    for j in 0..48 {
        assert_eq!(output[3 * j], input[2 * j]);
    }
}

#[test]
fn averaging_rounds_towards_zero() {
    assert_eq!(downsample_48_to_24(&[]), Vec::<i16>::new());
    assert_eq!(downsample_48_to_24(&[1, 2, -1, -2, 7]), vec![1, -1, 7]);
    assert_eq!(downsample_48_to_24(&[32767, 32767, -32768, -32768]), vec![32767, -32768]);
}

#[test]
fn rate_is_chosen_by_what_the_device_supports() {
    assert_eq!(choose_sample_rate(16000, &[]), 16000);
    assert_eq!(choose_sample_rate(24000, &[]), 24000);
    assert_eq!(choose_sample_rate(48000, &[]), 48000);
    assert_eq!(choose_sample_rate(44100, &[(8000, 96000)]), 48000);
    assert_eq!(choose_sample_rate(44100, &[(8000, 16000), (22050, 44100)]), 24000);
    assert_eq!(choose_sample_rate(44100, &[(44100, 44100), (16000, 16000)]), 16000);
    assert_eq!(choose_sample_rate(44100, &[(44100, 44100)]), 44100);
    assert!(supports_sample_rate(&[(1, 2), (5, 7)], 7));
    assert!(!supports_sample_rate(&[(1, 2), (5, 7)], 4));
}

#[test]
fn capture_brings_audio_to_24_khz() {
    let mut capture = PcmCapture::new(48000, &[]);
    assert_eq!(capture.sample_rate(), 48000);
    match capture.on_data(vec![1, 2, 3, 4]) {
        Some(PcmCaptureMessage::Chunk(samples)) => assert_eq!(samples, vec![1, 3]),
        None => panic!("running"),
    }
    capture.stop();
    assert!(capture.on_data(vec![1, 2]).is_none());

    match PcmCapture::new(16000, &[]).on_data(vec![0, 300]) {
        Some(PcmCaptureMessage::Chunk(samples)) => assert_eq!(samples, vec![0, 200, 300]),
        None => panic!("running"),
    }
    match PcmCapture::new(44100, &[]).on_data(vec![5, 6, 7]) {
        Some(PcmCaptureMessage::Chunk(samples)) => assert_eq!(samples, vec![5, 6, 7]),
        None => panic!("running"),
    }
}

#[test]
fn playback_plays_in_order_then_silence() {
    let mut playback = PcmPlayback::new();
    assert!(playback.on_chunk(vec![1, 2, 3]));
    assert!(playback.on_chunk(vec![4]));
    assert_eq!(playback.fill(3), vec![1, 2, 3]);
    assert_eq!(playback.fill(3), vec![4, 0, 0]);
    assert!(playback.fill(0).is_empty());
}

#[test]
fn restart_drops_what_waits() {
    let mut playback = PcmPlayback::new();
    playback.on_chunk(vec![1, 2, 3]);
    playback.process_commands(&restart_commands());
    assert_eq!(playback.fill(2), vec![0, 0]);
    assert!(playback.on_chunk(vec![7]));
    assert_eq!(playback.fill(1), vec![7]);
}

#[test]
fn stopped_playback_is_silent_and_takes_nothing_in() {
    let mut playback = PcmPlayback::new();
    playback.on_chunk(vec![1]);
    playback.stop();
    assert_eq!(playback.fill(2), vec![0, 0]);
    assert!(!playback.on_chunk(vec![9]));
    playback.start();
    assert!(!playback.on_chunk(vec![9]));
    assert_eq!(playback.fill(1), vec![0]);
}

#[test]
fn controller_sends_stop_then_start() {
    let (tx, rx) = std::sync::mpsc::channel();
    let controller = PcmPlaybackController::new(tx);
    let other = controller.clone();
    assert_eq!(controller.restart(), Ok(()));
    assert_eq!(rx.try_recv(), Ok(PlaybackCommand::Stop));
    assert_eq!(rx.try_recv(), Ok(PlaybackCommand::Start));
    assert_eq!(other.restart(), Ok(()));
    assert_eq!(rx.try_recv(), Ok(PlaybackCommand::Stop));
    drop(rx);
    assert_eq!(other.restart(), Err("playback command channel closed".to_string()));
    assert_eq!(restart_outcome(true), Ok(()));
    assert_eq!(restart_outcome(false), Err("playback command channel closed".to_string()));
}

#[test]
fn samples_are_little_endian() {
    assert_eq!(samples_to_bytes(&[1, -2, 258]), vec![1, 0, 0xFE, 0xFF, 2, 1]);
    assert_eq!(bytes_to_samples(&[1, 0, 0xFE, 0xFF, 2, 1, 99]), vec![1, -2, 258]);
    let all: Vec<i16> = (i16::MIN..=i16::MAX).collect();
    let expected: Vec<u8> = all.iter().flat_map(|s| s.to_le_bytes()).collect();
    assert_eq!(samples_to_bytes(&all), expected);
    assert_eq!(bytes_to_samples(&expected), all);
}

#[test]
fn base64_of_known_texts() {
    for (bytes, text) in [
        ("", ""),
        ("f", "Zg=="),
        ("fo", "Zm8="),
        ("foo", "Zm9v"),
        ("foob", "Zm9vYg=="),
        ("fooba", "Zm9vYmE="),
        ("foobar", "Zm9vYmFy"),
    ] {
        assert_eq!(to_base64(bytes.as_bytes()), text);
        assert_eq!(from_base64(text), Ok(bytes.as_bytes().to_vec()));
    }
    assert_eq!(to_base64(&[0xFB, 0xEF, 0xFF]), "++//");
}

#[test]
fn base64_undoes_itself() {
    let bytes: Vec<u8> = (0..=255).collect();
    for n in 0..bytes.len() {
        assert_eq!(from_base64(&to_base64(&bytes[..n])), Ok(bytes[..n].to_vec()));
    }
}

#[test]
fn what_is_not_base64_is_refused() {
    // No padding, bits beyond the last byte, too much padding, other alphabets and white space.
    for text in ["Zg", "Zh==", "Zg=", "Zm9v====", "Zm9-", "Zm 9v", "Zm9v\n", "=", "Zm9\u{e9}"] {
        assert!(from_base64(text).is_err(), "{}", text);
    }
    assert_eq!(from_base64("Zm9-").unwrap_err(), "Invalid symbol 45, offset 3.");
}

fn expected_expansion(code: u8) -> i16 {
    let m = 255 - code as i32;
    let magnitude = ((((2 * (m & 15)) + 33) << ((m >> 4) & 7)) - 33) * 4;
    (if m >= 128 { -magnitude } else { magnitude }) as i16
}

#[test]
fn codes_are_expanded_to_the_middle_of_their_step() {
    let codes: Vec<u8> = (0..=255).collect();
    let samples = expand(&codes);
    for (code, sample) in codes.iter().zip(&samples) {
        assert_eq!(*sample, expected_expansion(*code), "code {}", code);
    }
    assert_eq!(samples[0], -32124);
    assert_eq!(samples[128], 32124);
    assert_eq!(samples[255], 0);
}

#[test]
fn samples_are_compressed_by_segment_and_step() {
    let samples: Vec<i16> = (i16::MIN..=i16::MAX).collect();
    let codes = compress(&samples);
    for (sample, code) in samples.iter().zip(&codes) {
        let s = *sample as i32;
        let v = (if s >= 0 { s / 4 } else { (-1 - s) / 4 }) + 33;
        let bits = 32 - (v as u32).leading_zeros() as i32;
        let expected = if v >= 8192 {
            127
        } else {
            let segment = bits - 6;
            16 * segment + (v >> (segment + 1)) - 16
        };
        let sign = if s < 0 { 128 } else { 0 };
        assert_eq!(*code as i32, 255 - sign - expected, "sample {}", s);
    }
}

#[test]
fn codes_survive_but_for_negative_zero() {
    for code in 0..=255u8 {
        let back = compress(&expand(&[code]))[0];
        if code == 127 {
            assert_eq!(back, 255);
        } else {
            assert_eq!(back, code);
        }
        assert_eq!(expand(&[back]), expand(&[code]));
    }
}

#[test]
fn frames_are_cut_the_same_however_they_arrive() {
    let data: Vec<u8> = (0..50).collect();
    let mut whole = data.clone();
    let expected = take_frames(&mut whole, 7);
    assert_eq!(expected.len(), 7);
    assert_eq!(whole, vec![49]);
    for cut in 0..=50 {
        let mut buffer = data[..cut].to_vec();
        let mut got = take_frames(&mut buffer, 7);
        buffer.extend_from_slice(&data[cut..]);
        got.extend(take_frames(&mut buffer, 7));
        assert_eq!(got, expected);
        assert_eq!(buffer, vec![49]);
    }
}

#[test]
fn captured_audio_is_sent_in_chunks() {
    let mut buffer = CaptureBuffer::new(4);
    assert_eq!(
        buffer.on_message(AudioCaptureMessage::Chunk(vec![1, 2, 3])),
        vec![to_base64(&[1, 0, 2, 0])]
    );
    assert_eq!(
        buffer.on_message(AudioCaptureMessage::Chunk(vec![4, 5])),
        vec![to_base64(&[3, 0, 4, 0])]
    );
    assert!(buffer.on_message(AudioCaptureMessage::Chunk(vec![])).is_empty());
    assert_eq!(
        buffer.on_message(AudioCaptureMessage::Chunk(vec![6])),
        vec![to_base64(&[5, 0, 6, 0])]
    );
}

#[test]
fn numbers_are_compared_as_numbers() {
    let numbers = [
        0.0f32,
        -0.0,
        1.0,
        -1.0,
        0.6,
        0.7,
        f32::MIN_POSITIVE,
        1.0e-45,
        -1.0e-45,
        f32::MAX,
        f32::MIN,
        f32::INFINITY,
        f32::NEG_INFINITY,
        f32::NAN,
        -f32::NAN,
    ];
    for a in numbers {
        for b in numbers {
            let x = F32Bits { bits: a.to_bits() };
            let y = F32Bits { bits: b.to_bits() };
            assert_eq!(x.gt(y), a > b, "{} > {}", a, b);
        }
    }
}

#[test]
fn nothing_captured_is_lost() {
    let samples: Vec<i16> = (0..100).map(|i| i * 300).collect();
    for size in [1, 3, 8, 200, 300] {
        let mut buffer = CaptureBuffer::new(size);
        let mut bytes = Vec::new();
        for part in samples.chunks(7) {
            for text in buffer.on_message(AudioCaptureMessage::Chunk(part.to_vec())) {
                let chunk = from_base64(&text).unwrap();
                assert_eq!(chunk.len(), size);
                bytes.extend(chunk);
            }
        }
        let all = samples_to_bytes(&samples);
        assert_eq!(bytes.len(), all.len() / size * size);
        assert_eq!(bytes[..], all[..bytes.len()]);
    }
}
