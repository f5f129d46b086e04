//! What every engine offers, and the choice between the engines.
use vstd::prelude::*;

use crate::binary32::Binary32;
use crate::error::VadError;
use crate::sensitivity::VadSensitivity;
use crate::silero::SileroVad;
use crate::webrtc::{Aggressiveness, WebRtcVad};

verus! {

/// A detector of speech in a stream of frames, at a sensitivity that can be
/// set between any two frames.
pub trait VadEngine {
    /// What the engine is given of one frame. It is lent for the one call.
    type Frame: ?Sized;

    /// The sensitivity that the next frame is classified at.
    spec fn sensitivity(&self) -> VadSensitivity;

    /// Tells whether the frame holds speech. The sensitivity stays as it is.
    fn is_voice_segment(&mut self, frame: &Self::Frame) -> (verdict: Result<bool, VadError>)
        ensures
            final(self).sensitivity() == old(self).sensitivity(),
    ;

    /// Sets the sensitivity that the following frames are classified at.
    fn set_sensitivity(&mut self, sensitivity: VadSensitivity)
        ensures
            final(self).sensitivity() == sensitivity,
    ;

    /// Gives the fraction of a segment's frames that must be speech at the
    /// current sensitivity.
    fn get_min_speech_ratio(&self) -> (ratio: Binary32)
        ensures
            ratio == self.sensitivity().min_speech_ratio(),
    ;
}

/// The engines to choose from.
#[derive(Clone, Copy, Debug, PartialEq, Eq, Structural)]
pub enum VadEngineEnum {
    WebRtc,
    Silero,
}

/// An engine of either kind.
pub enum Engine {
    WebRtc(WebRtcVad),
    Silero(SileroVad),
}

/// Makes the engine that was chosen, in its first state: the WebRTC engine at
/// high sensitivity, the Silero engine at medium sensitivity with no frame
/// seen.
pub fn create_vad_engine(engine: VadEngineEnum) -> (created: Engine)
    ensures
        match engine {
            VadEngineEnum::WebRtc => {
                &&& created matches Engine::WebRtc(webrtc)
                &&& webrtc.sensitivity() == VadSensitivity::High
                &&& webrtc.mode() == Aggressiveness::Quality.level()
            },
            VadEngineEnum::Silero => {
                &&& created matches Engine::Silero(silero)
                &&& silero@.history == Seq::<Binary32>::empty()
                &&& silero@.sensitivity == VadSensitivity::Medium
            },
        },
{
    match engine {
        VadEngineEnum::WebRtc => Engine::WebRtc(WebRtcVad::new()),
        VadEngineEnum::Silero => Engine::Silero(SileroVad::new()),
    }
}

} // verus!
