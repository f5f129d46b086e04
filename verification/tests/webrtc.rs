use vad_engine::webrtc::{mode_at, SAMPLES_PER_MS};
use vad_engine::{Aggressiveness, VadEngine, VadError, VadSensitivity, WebRtcVad};

fn silence(len: usize) -> Vec<u32> {
    vec![0.0f32.to_bits(); len]
}

#[test]
fn mode_of_each_level() {
    assert_eq!(mode_at(VadSensitivity::Low), Aggressiveness::Quality);
    assert_eq!(mode_at(VadSensitivity::Medium), Aggressiveness::Aggressive);
    assert_eq!(mode_at(VadSensitivity::High), Aggressiveness::VeryAggressive);
}

#[test]
fn a_new_engine_is_at_high_sensitivity() {
    let engine = WebRtcVad::new();
    assert_eq!(engine.get_min_speech_ratio(), 0.02f32.to_bits());
}

#[test]
fn frames_of_ten_twenty_and_thirty_ms_get_a_verdict() {
    let mut engine = WebRtcVad::new();
    assert_eq!(SAMPLES_PER_MS, 8);
    for len in [80, 160, 240] {
        assert!(matches!(engine.is_voice_segment(&silence(len)), Ok(false)), "{}", len);
    }
}

#[test]
fn frames_of_other_lengths_are_an_error() {
    let mut engine = WebRtcVad::new();
    for len in [1, 79, 81, 159, 161, 239, 241, 320, 480, 1600] {
        let verdict = engine.is_voice_segment(&silence(len));
        assert!(matches!(verdict, Err(VadError::FrameLength)), "{}", len);
    }
}

#[test]
fn an_empty_frame_is_an_error() {
    let mut engine = WebRtcVad::new();
    assert!(matches!(engine.is_voice_segment(&[]), Err(VadError::FrameLength)));
}

#[test]
fn an_error_leaves_the_engine_usable() {
    let mut engine = WebRtcVad::new();
    assert!(engine.is_voice_segment(&silence(100)).is_err());
    assert!(matches!(engine.is_voice_segment(&silence(160)), Ok(false)));
    assert_eq!(engine.get_min_speech_ratio(), 0.02f32.to_bits());
}

#[test]
fn silence_is_no_speech_at_any_sensitivity() {
    let mut engine = WebRtcVad::new();
    for level in [VadSensitivity::Low, VadSensitivity::Medium, VadSensitivity::High] {
        engine.set_sensitivity(level);
        assert!(matches!(engine.is_voice_segment(&silence(240)), Ok(false)));
    }
}

#[test]
fn samples_out_of_range_do_not_break_the_engine() {
    let mut engine = WebRtcVad::new();
    let mut frame = Vec::new();
    for i in 0..160 {
        let x = match i % 4 {
            0 => 5.0f32,
            1 => -5.0,
            2 => f32::NAN,
            _ => f32::INFINITY,
        };
        frame.push(x.to_bits());
    }
    assert!(engine.is_voice_segment(&frame).is_ok());
}

#[test]
fn webrtc_ratio_follows_the_sensitivity() {
    let mut engine = WebRtcVad::new();
    engine.set_sensitivity(VadSensitivity::Low);
    assert_eq!(f32::from_bits(engine.get_min_speech_ratio()), 0.1);
    engine.set_sensitivity(VadSensitivity::Medium);
    assert_eq!(f32::from_bits(engine.get_min_speech_ratio()), 0.05);
    engine.set_sensitivity(VadSensitivity::High);
    assert_eq!(f32::from_bits(engine.get_min_speech_ratio()), 0.02);
}

fn tone(frame_number: usize, len: usize) -> Vec<u32> {
    (0..len)
        .map(|i| {
            let t = (frame_number * len + i) as f32 / 8000.0;
            let x = 0.5 * (2.0 * std::f32::consts::PI * 200.0 * t).sin()
                + 0.3 * (2.0 * std::f32::consts::PI * 700.0 * t).sin()
                + 0.1 * (2.0 * std::f32::consts::PI * 1900.0 * t).sin();
            x.to_bits()
        })
        .collect()
}

#[test]
fn a_loud_tone_is_voice_and_silence_is_not() {
    let mut engine = WebRtcVad::new();
    for k in 0..20 {
        assert!(matches!(engine.is_voice_segment(&tone(k, 240)), Ok(true)), "{}", k);
    }
    let mut engine = WebRtcVad::new();
    for k in 0..20 {
        assert!(matches!(engine.is_voice_segment(&silence(240)), Ok(false)), "{}", k);
    }
}

#[test]
fn a_tone_too_faint_for_a_16_bit_sample_is_silence() {
    let mut engine = WebRtcVad::new();
    for k in 0..20 {
        let faint: Vec<u32> = tone(k, 240)
            .iter()
            .map(|&b| (f32::from_bits(b) / 65536.0).to_bits())
            .collect();
        assert!(matches!(engine.is_voice_segment(&faint), Ok(false)), "{}", k);
    }
}

fn faint_tone(frame_number: usize) -> Vec<u32> {
    tone(frame_number, 240).iter().map(|&b| (f32::from_bits(b) * 0.001).to_bits()).collect()
}

#[test]
fn the_mode_of_the_sensitivity_is_set_before_the_detector_is_asked() {
    // A new detector is in its most lenient mode, in which it takes this frame for
    // voice; a new engine is at high sensitivity, whose mode does not.
    let mut engine = WebRtcVad::new();
    assert!(matches!(engine.is_voice_segment(&faint_tone(0)), Ok(false)));
    let mut engine = WebRtcVad::new();
    engine.set_sensitivity(VadSensitivity::Medium);
    assert!(matches!(engine.is_voice_segment(&faint_tone(0)), Ok(false)));
    let mut engine = WebRtcVad::new();
    engine.set_sensitivity(VadSensitivity::Low);
    assert!(matches!(engine.is_voice_segment(&faint_tone(0)), Ok(true)));
}

#[test]
fn the_sensitivity_set_last_is_the_one_that_counts() {
    let mut engine = WebRtcVad::new();
    engine.set_sensitivity(VadSensitivity::Low);
    engine.set_sensitivity(VadSensitivity::High);
    assert!(matches!(engine.is_voice_segment(&faint_tone(0)), Ok(false)));
    let mut engine = WebRtcVad::new();
    engine.set_sensitivity(VadSensitivity::High);
    engine.set_sensitivity(VadSensitivity::Low);
    assert!(matches!(engine.is_voice_segment(&faint_tone(0)), Ok(true)));
}
