use mofa_macos_ime::audio::{
    check_encoding, check_recording, frame_bounds, frame_count, resample_to_16k, resampled_len,
    tap_at, SampleEncoding, Tap, TARGET_RATE,
};
use mofa_macos_ime::pipeline::CaptureError;

fn lerp(a: f32, b: f32, k: u32) -> f32 {
    let frac = k as f64 / 16000.0;
    (a as f64 + (b as f64 - a as f64) * frac) as f32
}

#[test]
fn resampling_at_the_target_rate_is_the_identity() {
    assert_eq!(TARGET_RATE, 16000);
    let x: Vec<f32> = vec![0.0, 0.25, -0.5, 1.0, -1.0, 0.0001];
    assert_eq!(resample_to_16k(&x, 16000, lerp), x);
    let y: Vec<f32> = (0..1000).map(|i| (i as f32 * 0.37).sin()).collect();
    assert_eq!(resample_to_16k(&y, 16000, lerp), y);
    let one: Vec<f32> = vec![0.5];
    assert_eq!(resample_to_16k(&one, 16000, lerp), one);
}

#[test]
fn empty_audio_stays_empty() {
    let none: Vec<f32> = Vec::new();
    assert_eq!(resample_to_16k(&none, 48000, lerp), none);
    assert_eq!(resample_to_16k(&none, 0, lerp), none);
    assert_eq!(resample_to_16k(&none, 16000, lerp), none);
}

#[test]
fn downsampling_by_three_takes_every_third_sample() {
    let x: Vec<f32> = vec![0.0, 1.0, 2.0, 3.0, 4.0, 5.0];
    assert_eq!(resample_to_16k(&x, 48000, lerp), vec![0.0, 3.0]);
}

#[test]
fn upsampling_by_two_interpolates() {
    let x: Vec<f32> = vec![0.0, 10.0];
    assert_eq!(resample_to_16k(&x, 8000, lerp), vec![0.0, 5.0, 10.0, 10.0]);
}

#[test]
fn resampling_works_on_integer_samples_too() {
    let x: Vec<i32> = vec![0, 100, 200];
    let mix = |a: i32, b: i32, k: u32| a + ((b - a) as i64 * k as i64 / 16000) as i32;
    assert_eq!(resample_to_16k(&x, 8000, mix), vec![0, 50, 100, 150, 200, 200]);
    assert_eq!(resample_to_16k(&x, 16000, mix), x);
}

#[test]
fn resampled_length_is_rounded() {
    assert_eq!(resampled_len(6, 48000), Some(2));
    assert_eq!(resampled_len(1, 48000), Some(0));
    assert_eq!(resampled_len(2, 48000), Some(1));
    assert_eq!(resampled_len(3, 32000), Some(2));
    assert_eq!(resampled_len(441, 44100), Some(160));
    assert_eq!(resampled_len(144000, 48000), Some(48000));
    assert_eq!(resampled_len(2, 8000), Some(4));
    assert_eq!(resampled_len(5, 16000), Some(5));
    assert_eq!(resampled_len(0, 0), Some(0));
    assert_eq!(resampled_len(0, 44100), Some(0));
    assert_eq!(resampled_len(5, 0), None);
    assert_eq!(resampled_len(usize::MAX, 1), None);
}

#[test]
fn taps_lie_inside_the_input() {
    assert_eq!(tap_at(6, 48000, 1), Tap { lo: 3, hi: 4, frac: 0 });
    assert_eq!(tap_at(2, 8000, 1), Tap { lo: 0, hi: 1, frac: 8000 });
    assert_eq!(tap_at(2, 8000, 3), Tap { lo: 1, hi: 1, frac: 8000 });
    assert_eq!(tap_at(441, 44100, 1), Tap { lo: 2, hi: 3, frac: 12100 });
    for (len, rate) in [(441usize, 44100u32), (1000, 22050), (7, 48000), (3, 32000), (5, 11025)] {
        let n = resampled_len(len, rate).unwrap();
        for i in 0..n {
            let t = tap_at(len, rate, i);
            assert!(t.lo <= t.hi && t.hi < len && t.frac < 16000);
            assert_eq!(t.lo as u64 * 16000 + t.frac as u64, i as u64 * rate as u64);
        }
    }
}

#[test]
fn frames_of_interleaved_audio() {
    assert_eq!(frame_count(0, 2), 0);
    assert_eq!(frame_count(6, 2), 3);
    assert_eq!(frame_count(7, 2), 4);
    assert_eq!(frame_count(5, 1), 5);
    assert_eq!(frame_count(5, 0), 0);
    assert_eq!(frame_count(1, 8), 1);
    assert_eq!(frame_bounds(7, 2, 0), (0, 2));
    assert_eq!(frame_bounds(7, 2, 2), (4, 6));
    assert_eq!(frame_bounds(7, 2, 3), (6, 7));
    assert_eq!(frame_bounds(5, 1, 4), (4, 5));
    assert_eq!(frame_bounds(1, 8, 0), (0, 1));
}

#[test]
fn capture_errors() {
    assert_eq!(check_encoding(SampleEncoding::F32), Ok(()));
    assert_eq!(check_encoding(SampleEncoding::I16), Ok(()));
    assert_eq!(check_encoding(SampleEncoding::U16), Ok(()));
    assert_eq!(check_encoding(SampleEncoding::Other), Err(CaptureError::UnsupportedFormat));
    assert_eq!(check_recording(0), Err(CaptureError::EmptyRecording));
    assert_eq!(check_recording(1), Ok(()));
    assert_eq!(check_recording(48000), Ok(()));
}
