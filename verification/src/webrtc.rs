//! The engine over the WebRTC detector, which gives a verdict per frame.
use vstd::prelude::*;

use crate::binary32::Binary32;
use crate::engine::VadEngine;
use crate::error::VadError;
use crate::pcm::{pcm16_frame_of, to_pcm16_frame};
use crate::sensitivity::VadSensitivity;

verus! {

/// How strict the detector is in reporting speech.
#[derive(Clone, Copy, Debug, PartialEq, Eq, Structural)]
pub enum Aggressiveness {
    Quality,
    LowBitrate,
    Aggressive,
    VeryAggressive,
}

impl Aggressiveness {
    /// The detector's number for the mode: the higher, the stricter.
    pub open spec fn level(self) -> int {
        match self {
            Aggressiveness::Quality => 0,
            Aggressiveness::LowBitrate => 1,
            Aggressiveness::Aggressive => 2,
            Aggressiveness::VeryAggressive => 3,
        }
    }
}

/// `webrtc_vad::Vad`, the detector. Nothing inside it is known here: what the
/// engine relies on is named below and stated of each call.
#[verifier::external_type_specification]
#[verifier::external_body]
pub struct ExWebRtcDetector(webrtc_vad::Vad);

/// The number of samples per millisecond that a detector expects.
pub uninterp spec fn samples_per_ms(detector: webrtc_vad::Vad) -> int;

/// The number of the mode that a detector works in, from 0 to 3.
pub uninterp spec fn mode_of(detector: webrtc_vad::Vad) -> int;

/// The detector that a detector becomes when it is put in the mode of the
/// given number: the same in all but the mode.
pub uninterp spec fn in_mode(detector: webrtc_vad::Vad, mode: int) -> webrtc_vad::Vad;

/// Whether a detector, as it stands, finds speech in a frame of a length
/// that it takes. The answer rests on the detector and the frame alone: on
/// its mode, and on what it has learnt from the frames before.
pub uninterp spec fn voice_in(detector: webrtc_vad::Vad, frame: Seq<i16>) -> bool;

/// Whether a detector takes a frame of `len` samples: one of 10, 20 or 30 ms.
pub open spec fn frame_fits(per_ms: int, len: int) -> bool {
    len == 10 * per_ms || len == 20 * per_ms || len == 30 * per_ms
}

/// `webrtc_vad::Vad::new`: a detector for 8 kHz input in mode 0, `Quality`.
#[verifier::external_body]
fn detector_new() -> (detector: webrtc_vad::Vad)
    ensures
        samples_per_ms(detector) == 8,
        mode_of(detector) == 0,
{
    webrtc_vad::Vad::new()
}

/// `webrtc_vad::Vad::set_mode`: the detector becomes what it is in the given
/// mode, and nothing else: it works in that mode from now on and expects the
/// same input rate as before. Each of the four modes is one that the detector
/// knows, so the call does not panic.
#[verifier::external_body]
fn detector_set_mode(detector: &mut webrtc_vad::Vad, mode: Aggressiveness)
    ensures
        *final(detector) == in_mode(*old(detector), mode.level()),
        mode_of(*final(detector)) == mode.level(),
        samples_per_ms(*final(detector)) == samples_per_ms(*old(detector)),
    no_unwind
{
    detector.set_mode(
        match mode {
            Aggressiveness::Quality => webrtc_vad::VadMode::Quality,
            Aggressiveness::LowBitrate => webrtc_vad::VadMode::LowBitrate,
            Aggressiveness::Aggressive => webrtc_vad::VadMode::Aggressive,
            Aggressiveness::VeryAggressive => webrtc_vad::VadMode::VeryAggressive,
        },
    )
}

/// `webrtc_vad::Vad::is_voice_segment`: the detector's verdict on a frame. It
/// fails exactly on a frame whose length it does not take; otherwise the
/// verdict is the one that the detector, as it stood before the call, finds
/// for the frame. The detector keeps its mode and input rate. It reads the
/// first sample before anything else, so the frame must hold one; on such a
/// frame it does not panic.
#[verifier::external_body]
fn detector_is_voice_segment(detector: &mut webrtc_vad::Vad, frame: &[i16]) -> (verdict: Result<
    bool,
    (),
>)
    requires
        frame@.len() > 0,
    ensures
        verdict is Ok <==> frame_fits(samples_per_ms(*old(detector)), frame@.len() as int),
        verdict matches Ok(voice) ==> voice == voice_in(*old(detector), frame@),
        mode_of(*final(detector)) == mode_of(*old(detector)),
        samples_per_ms(*final(detector)) == samples_per_ms(*old(detector)),
    no_unwind
{
    detector.is_voice_segment(frame)
}

/// The mode that the detector is put in at a sensitivity.
pub open spec fn mode_for(sensitivity: VadSensitivity) -> Aggressiveness {
    match sensitivity {
        VadSensitivity::Low => Aggressiveness::Quality,
        VadSensitivity::Medium => Aggressiveness::Aggressive,
        VadSensitivity::High => Aggressiveness::VeryAggressive,
    }
}

/// Gives the mode that the detector is put in at a sensitivity.
#[verifier::when_used_as_spec(mode_for)]
pub fn mode_at(sensitivity: VadSensitivity) -> (mode: Aggressiveness)
    ensures
        mode == mode_for(sensitivity),
{
    match sensitivity {
        VadSensitivity::Low => Aggressiveness::Quality,
        VadSensitivity::Medium => Aggressiveness::Aggressive,
        VadSensitivity::High => Aggressiveness::VeryAggressive,
    }
}

/// The more sensitive the level, the stricter the mode.
pub proof fn lemma_mode_rises(lower: VadSensitivity, higher: VadSensitivity)
    requires
        lower.rank() < higher.rank(),
    ensures
        mode_for(lower).level() < mode_for(higher).level(),
{
}

/// What the engine makes of the detector's answer: the detector's verdict as
/// it is, and its refusal of the frame as an error of the frame's length.
pub fn verdict_from(detected: Result<bool, ()>) -> (verdict: Result<bool, VadError>)
    ensures
        match detected {
            Ok(voice) => verdict matches Ok(v) && v == voice,
            Err(_) => verdict matches Err(VadError::FrameLength),
        },
{
    match detected {
        Ok(voice) => Ok(voice),
        Err(_) => Err(VadError::FrameLength),
    }
}

/// The number of samples per millisecond in the frames that the engine takes.
pub const SAMPLES_PER_MS: usize = 8;

/// The engine that hands each frame to the WebRTC detector and returns its
/// verdict.
pub struct WebRtcVad {
    vad: webrtc_vad::Vad,
    sensitivity: VadSensitivity,
}

impl WebRtcVad {
    #[verifier::type_invariant]
    spec fn narrowband(&self) -> bool {
        samples_per_ms(self.vad) == SAMPLES_PER_MS
    }

    /// The number of the mode that the detector was last put in.
    pub closed spec fn mode(&self) -> int {
        mode_of(self.vad)
    }

    /// Whether the engine's detector, as it stands and once put in the mode of
    /// the given number, finds speech in a frame of 16-bit samples.
    pub closed spec fn hears(&self, mode: int, frame: Seq<i16>) -> bool {
        voice_in(in_mode(self.vad, mode), frame)
    }

    /// An engine at high sensitivity.
    pub fn new() -> (engine: WebRtcVad)
        ensures
            engine.sensitivity() == VadSensitivity::High,
            engine.mode() == Aggressiveness::Quality.level(),
    {
        let vad = detector_new();
        WebRtcVad { vad, sensitivity: VadSensitivity::High }
    }
}

impl VadEngine for WebRtcVad {
    /// The samples of the frame, 8000 to the second.
    type Frame = [Binary32];

    closed spec fn sensitivity(&self) -> VadSensitivity {
        self.sensitivity
    }

    /// Converts the frame to 16-bit samples, puts the detector in the mode of
    /// the current sensitivity and asks it whether the frame holds speech. The
    /// verdict is the detector's own, on the converted samples and in that
    /// mode. A frame that is not 10, 20 or 30 ms long is an error.
    fn is_voice_segment(&mut self, audio_chunk: &[Binary32]) -> (verdict: Result<
        bool,
        VadError,
    >)
        ensures
            final(self).sensitivity() == old(self).sensitivity(),
            final(self).mode() == mode_for(old(self).sensitivity()).level(),
            verdict is Ok <==> frame_fits(SAMPLES_PER_MS as int, audio_chunk@.len() as int),
            verdict is Err ==> verdict matches Err(VadError::FrameLength),
            verdict matches Ok(voice) ==> voice == old(self).hears(
                mode_for(old(self).sensitivity()).level(),
                pcm16_frame_of(audio_chunk@),
            ),
    {
        proof {
            use_type_invariant(&*self);
        }
        let samples = to_pcm16_frame(audio_chunk);
        let mode = mode_at(self.sensitivity);
        detector_set_mode(&mut self.vad, mode);
        if samples.len() == 0 {
            return Err(VadError::FrameLength);
        }
        verdict_from(detector_is_voice_segment(&mut self.vad, samples.as_slice()))
    }

    /// Sets the sensitivity that the following frames are classified at. The
    /// detector is not touched: it is put in the new mode when the next frame
    /// comes.
    fn set_sensitivity(&mut self, sensitivity: VadSensitivity)
        ensures
            final(self).sensitivity() == sensitivity,
            final(self).mode() == old(self).mode(),
            forall|mode: int, frame: Seq<i16>|
                #[trigger] final(self).hears(mode, frame) == old(self).hears(mode, frame),
    {
        proof {
            use_type_invariant(&*self);
        }
        self.sensitivity = sensitivity;
    }

    /// Gives the fraction of a segment's frames that must be speech at the
    /// current sensitivity.
    fn get_min_speech_ratio(&self) -> (ratio: Binary32)
        ensures
            ratio == self.sensitivity().min_speech_ratio(),
    {
        self.sensitivity.min_speech_ratio()
    }
}

} // verus!
