//! The engine over the Silero detector, which gives a speech probability per
//! frame.
//!
//! The detector itself runs outside this library. The engine prepares the
//! chunk that the detector is given, and decides on what the detector gave
//! back: it smooths the probabilities over the recent frames and holds the
//! newest one against the threshold of the current sensitivity.
use vstd::prelude::*;

use crate::binary32::{greater_than, gt, Binary32, ZERO};
use crate::engine::VadEngine;
use crate::error::VadError;
use crate::sensitivity::VadSensitivity;
use crate::smoother::{
    lemma_speech_frames_of_pushed, pushed, speech_frames, status_of, TemporalSmoother, VadStatus,
    FRAME_HISTORY, SPEECH_FRAME_THRESHOLD,
};

verus! {

/// The number of samples in the chunk that the detector is given: 100 ms.
pub const CHUNK_SIZE: usize = 1600;

/// The number of samples per second that the detector expects.
pub const SAMPLE_RATE: usize = 16000;

/// Where the detector's model is published.
pub const MODEL_URL: &'static str =
    "https://github.com/k2-fsa/sherpa-onnx/releases/download/asr-models/silero_vad.onnx";

/// The name under which the model is kept in the directory for temporary
/// files.
pub const MODEL_FILE_NAME: &'static str = "silero_vad.onnx";

/// A frame brought to the length of a chunk: cut off behind the last sample
/// that fits, or filled up with zeros.
pub open spec fn chunk_of(frame: Seq<Binary32>) -> Seq<Binary32> {
    Seq::new(
        CHUNK_SIZE as nat,
        |i: int|
            if i < frame.len() {
                frame[i]
            } else {
                ZERO
            },
    )
}

/// What the engine knows between two frames.
pub struct SileroState {
    /// The probabilities of the most recent frames, oldest first.
    pub history: Seq<Binary32>,
    /// The sensitivity that the next frame is classified at.
    pub sensitivity: VadSensitivity,
}

/// The state after a frame of the given probability.
pub open spec fn state_after(state: SileroState, prob: Binary32) -> SileroState {
    SileroState { history: pushed(state.history, prob), sensitivity: state.sensitivity }
}

/// The verdict on a frame of the given probability: speech when the history
/// that includes the frame says so and the frame's own probability exceeds the
/// threshold of the sensitivity.
pub open spec fn verdict_on(state: SileroState, prob: Binary32) -> bool {
    status_of(pushed(state.history, prob)) == VadStatus::Speech && gt(
        prob,
        state.sensitivity.threshold(),
    )
}

/// The state after the sensitivity was set.
pub open spec fn state_with(state: SileroState, sensitivity: VadSensitivity) -> SileroState {
    SileroState { history: state.history, sensitivity }
}

/// The engine that smooths the detector's probabilities into verdicts.
pub struct SileroVad {
    smoother: TemporalSmoother,
    sensitivity: VadSensitivity,
}

impl View for SileroVad {
    type V = SileroState;

    closed spec fn view(&self) -> SileroState {
        SileroState { history: self.smoother@, sensitivity: self.sensitivity }
    }
}

impl SileroVad {
    /// An engine at medium sensitivity that has seen no frame.
    pub fn new() -> (engine: SileroVad)
        ensures
            engine@.history == Seq::<Binary32>::empty(),
            engine@.sensitivity == VadSensitivity::Medium,
    {
        SileroVad { smoother: TemporalSmoother::new(), sensitivity: VadSensitivity::Medium }
    }

    /// The probabilities of the most recent frames, oldest first.
    pub fn history(&self) -> (history: Vec<Binary32>)
        ensures
            history@ == self@.history,
            history@.len() <= FRAME_HISTORY,
    {
        self.smoother.history()
    }

    /// Brings a frame to the length that the detector expects.
    pub fn prepare_chunk(audio_chunk: &[Binary32]) -> (chunk: Vec<Binary32>)
        ensures
            chunk@ == chunk_of(audio_chunk@),
    {
        let mut chunk: Vec<Binary32> = Vec::with_capacity(CHUNK_SIZE);
        let mut i: usize = 0;
        while i < CHUNK_SIZE
            invariant
                i <= CHUNK_SIZE,
                chunk@.len() == i,
                forall|j: int| 0 <= j < i ==> chunk@[j] == chunk_of(audio_chunk@)[j],
            decreases CHUNK_SIZE - i,
        {
            if i < audio_chunk.len() {
                chunk.push(audio_chunk[i]);
            } else {
                chunk.push(ZERO);
            }
            i = i + 1;
        }
        chunk
    }

    /// Takes in the probability of the next frame and gives the status of the
    /// history that includes it.
    pub fn update_status(&mut self, prob: Binary32) -> (status: VadStatus)
        ensures
            final(self)@ == state_after(old(self)@, prob),
            status == status_of(final(self)@.history),
    {
        self.smoother.update_status(prob)
    }

    /// Gives the probability that a frame must exceed at the current
    /// sensitivity.
    pub fn get_threshold(&self) -> (threshold: Binary32)
        ensures
            threshold == self@.sensitivity.threshold(),
    {
        self.sensitivity.threshold()
    }
}

impl VadEngine for SileroVad {
    /// What the detector made of the frame's chunk: the probability of
    /// speech, or the words of its failure.
    type Frame = Result<Binary32, String>;

    open spec fn sensitivity(&self) -> VadSensitivity {
        self@.sensitivity
    }

    /// Decides on a frame, given what the detector made of its chunk.
    ///
    /// A probability enters the history and gets its verdict. A failure of the
    /// detector is handed on, and the engine is left as it was.
    fn is_voice_segment(&mut self, computed: &Result<Binary32, String>) -> (verdict: Result<
        bool,
        VadError,
    >)
        ensures
            match *computed {
                Ok(prob) => {
                    &&& final(self)@ == state_after(old(self)@, prob)
                    &&& verdict matches Ok(voice)
                    &&& voice == verdict_on(old(self)@, prob)
                },
                Err(detail) => {
                    &&& final(self)@ == old(self)@
                    &&& verdict matches Err(VadError::Compute(text))
                    &&& text == detail
                },
            },
    {
        let threshold = self.get_threshold();
        match computed {
            Ok(prob) => {
                let status = self.update_status(*prob);
                Ok(status == VadStatus::Speech && greater_than(*prob, threshold))
            },
            Err(detail) => Err(VadError::Compute(detail.clone())),
        }
    }

    /// Sets the sensitivity that the following frames are classified at. The
    /// history stays as it is.
    fn set_sensitivity(&mut self, sensitivity: VadSensitivity)
        ensures
            final(self)@ == state_with(old(self)@, sensitivity),
    {
        self.sensitivity = sensitivity;
    }

    /// Gives the fraction of a segment's frames that must be speech at the
    /// current sensitivity.
    fn get_min_speech_ratio(&self) -> (ratio: Binary32)
        ensures
            ratio == self@.sensitivity.min_speech_ratio(),
    {
        self.sensitivity.min_speech_ratio()
    }
}

/// A frame is taken for speech on two grounds, and not without either: its own
/// probability exceeds the threshold of the sensitivity, and the history that
/// includes it says speech. One frame does not make a history say speech: all
/// but one of the speech frames that this takes were there before it.
pub proof fn lemma_verdict_needs_both(state: SileroState, prob: Binary32)
    ensures
        verdict_on(state, prob) ==> gt(prob, state.sensitivity.threshold()),
        verdict_on(state, prob) ==> status_of(state_after(state, prob).history)
            == VadStatus::Speech,
        verdict_on(state, prob) ==> speech_frames(state.history) + 1 >= SPEECH_FRAME_THRESHOLD,
        !gt(prob, state.sensitivity.threshold()) ==> !verdict_on(state, prob),
        status_of(state_after(state, prob).history) != VadStatus::Speech ==> !verdict_on(
            state,
            prob,
        ),
{
    lemma_speech_frames_of_pushed(state.history, prob);
}

/// A change of sensitivity between two frames bears on the second frame and
/// not on the first: each frame is held against the threshold of the
/// sensitivity that was set when it came, and the history is the same as if
/// the sensitivity had not been touched.
pub proof fn lemma_sensitivity_applies_from_next_frame(
    state: SileroState,
    first: Binary32,
    sensitivity: VadSensitivity,
    second: Binary32,
)
    ensures
        ({
            let between = state_with(state_after(state, first), sensitivity);
            &&& verdict_on(state, first) == (status_of(pushed(state.history, first))
                == VadStatus::Speech && gt(first, state.sensitivity.threshold()))
            &&& verdict_on(between, second) == (status_of(
                pushed(pushed(state.history, first), second),
            ) == VadStatus::Speech && gt(second, sensitivity.threshold()))
            &&& state_after(between, second).history == state_after(
                state_after(state, first),
                second,
            ).history
            &&& state_after(between, second).sensitivity == sensitivity
        }),
{
}

} // verus!
