use vad_engine::smoother::{
    FRAME_HISTORY, SILENCE_THRESHOLD, SPEECH_FRAME_THRESHOLD, SPEECH_THRESHOLD,
};
use vad_engine::{TemporalSmoother, VadStatus};

fn bits(x: f32) -> u32 {
    x.to_bits()
}

fn feed(smoother: &mut TemporalSmoother, probs: &[f32]) -> VadStatus {
    let mut status = VadStatus::Unknown;
    for &p in probs {
        status = smoother.update_status(bits(p));
    }
    status
}

fn held(smoother: &TemporalSmoother) -> Vec<f32> {
    smoother.history().iter().map(|&b| f32::from_bits(b)).collect()
}

#[test]
fn constants_are_the_patterns_of_their_numbers() {
    assert_eq!(SPEECH_THRESHOLD, bits(0.5));
    assert_eq!(SILENCE_THRESHOLD, bits(0.35));
    assert_eq!(FRAME_HISTORY, 10);
    assert_eq!(SPEECH_FRAME_THRESHOLD, 3);
}

#[test]
fn ten_confident_frames_are_speech() {
    let mut smoother = TemporalSmoother::new();
    assert_eq!(feed(&mut smoother, &[0.9; 10]), VadStatus::Speech);
    assert_eq!(held(&smoother), vec![0.9; 10]);
}

#[test]
fn ten_quiet_frames_are_silence() {
    let mut smoother = TemporalSmoother::new();
    assert_eq!(feed(&mut smoother, &[0.1; 10]), VadStatus::Silence);
}

#[test]
fn three_speech_frames_win_over_seven_others() {
    let mut smoother = TemporalSmoother::new();
    let mut probs = vec![0.9; 3];
    probs.extend(vec![0.45; 7]);
    assert_eq!(feed(&mut smoother, &probs), VadStatus::Speech);
}

#[test]
fn three_speech_frames_win_over_a_silent_majority() {
    let mut smoother = TemporalSmoother::new();
    let probs = [0.1, 0.9, 0.1, 0.1, 0.9, 0.1, 0.1, 0.1, 0.9, 0.1];
    assert_eq!(feed(&mut smoother, &probs), VadStatus::Speech);
}

#[test]
fn ten_undecided_frames_are_unknown() {
    let mut smoother = TemporalSmoother::new();
    assert_eq!(feed(&mut smoother, &[0.45; 10]), VadStatus::Unknown);
}

#[test]
fn two_speech_frames_are_not_enough() {
    let mut smoother = TemporalSmoother::new();
    let probs = [0.9, 0.9, 0.45, 0.45, 0.45, 0.45, 0.45, 0.45, 0.45, 0.45];
    assert_eq!(feed(&mut smoother, &probs), VadStatus::Unknown);
}

#[test]
fn silence_needs_more_than_half() {
    let mut smoother = TemporalSmoother::new();
    let half = [0.1, 0.1, 0.1, 0.1, 0.1, 0.45, 0.45, 0.45, 0.45, 0.45];
    assert_eq!(feed(&mut smoother, &half), VadStatus::Unknown);
    let mut smoother = TemporalSmoother::new();
    let more = [0.1, 0.1, 0.1, 0.1, 0.1, 0.1, 0.45, 0.45, 0.45, 0.45];
    assert_eq!(feed(&mut smoother, &more), VadStatus::Silence);
}

#[test]
fn thresholds_themselves_count_for_neither() {
    let mut smoother = TemporalSmoother::new();
    assert_eq!(feed(&mut smoother, &[0.5; 10]), VadStatus::Unknown);
    let mut smoother = TemporalSmoother::new();
    assert_eq!(feed(&mut smoother, &[0.35; 10]), VadStatus::Unknown);
}

#[test]
fn early_windows_are_judged_as_they_are() {
    let mut smoother = TemporalSmoother::new();
    assert_eq!(smoother.len(), 0);
    assert_eq!(smoother.update_status(bits(0.1)), VadStatus::Silence);
    assert_eq!(smoother.len(), 1);
    let mut smoother = TemporalSmoother::new();
    assert_eq!(smoother.update_status(bits(0.9)), VadStatus::Unknown);
    assert_eq!(smoother.update_status(bits(0.9)), VadStatus::Unknown);
    assert_eq!(smoother.update_status(bits(0.9)), VadStatus::Speech);
    let mut smoother = TemporalSmoother::new();
    assert_eq!(smoother.update_status(bits(0.1)), VadStatus::Silence);
    assert_eq!(smoother.update_status(bits(0.45)), VadStatus::Unknown);
    assert_eq!(smoother.update_status(bits(0.1)), VadStatus::Silence);
}

#[test]
fn history_keeps_the_most_recent_ten() {
    let mut smoother = TemporalSmoother::new();
    let probs: Vec<f32> = (0..25).map(|i| i as f32 / 100.0).collect();
    for (i, &p) in probs.iter().enumerate() {
        smoother.update_status(bits(p));
        let from = (i + 1).saturating_sub(10);
        assert_eq!(held(&smoother), probs[from..i + 1].to_vec());
        assert!(smoother.len() <= FRAME_HISTORY);
        assert_eq!(smoother.len(), (i + 1).min(10));
    }
    assert_eq!(held(&smoother), probs[15..25].to_vec());
}

#[test]
fn old_speech_leaves_the_window() {
    let mut smoother = TemporalSmoother::new();
    assert_eq!(feed(&mut smoother, &[0.9; 3]), VadStatus::Speech);
    assert_eq!(feed(&mut smoother, &[0.1; 7]), VadStatus::Speech);
    assert_eq!(smoother.update_status(bits(0.1)), VadStatus::Silence);
    assert_eq!(held(&smoother), vec![0.9, 0.9, 0.1, 0.1, 0.1, 0.1, 0.1, 0.1, 0.1, 0.1]);
}

#[test]
fn what_is_not_a_number_counts_for_neither() {
    let mut smoother = TemporalSmoother::new();
    assert_eq!(feed(&mut smoother, &[f32::NAN; 10]), VadStatus::Unknown);
    assert_eq!(smoother.len(), 10);
}

#[test]
fn negative_probabilities_count_as_silence() {
    let mut smoother = TemporalSmoother::new();
    assert_eq!(feed(&mut smoother, &[-0.0, -1.0, f32::NEG_INFINITY]), VadStatus::Silence);
}

#[test]
fn status_is_a_plain_value() {
    let status = VadStatus::Speech;
    let copy = status;
    assert_eq!(status, copy);
    assert_ne!(status, VadStatus::Silence);
    assert_eq!(format!("{:?}", VadStatus::Unknown), "Unknown");
}
