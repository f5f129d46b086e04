//! The sensitivity setting and the numbers it stands for.
use vstd::prelude::*;

use crate::binary32::{gt, Binary32};

verus! {

/// 0.1: at low sensitivity a tenth of a segment's frames must be speech.
pub const MIN_SPEECH_RATIO_LOW: Binary32 = 0x3dcc_cccd;

/// 0.05: at medium sensitivity a twentieth of a segment's frames must be speech.
pub const MIN_SPEECH_RATIO_MEDIUM: Binary32 = 0x3d4c_cccd;

/// 0.02: at high sensitivity a fiftieth of a segment's frames must be speech.
pub const MIN_SPEECH_RATIO_HIGH: Binary32 = 0x3ca3_d70a;

/// 0.7: the probability a frame must exceed at low sensitivity.
pub const THRESHOLD_LOW: Binary32 = 0x3f33_3333;

/// 0.5: the probability a frame must exceed at medium sensitivity.
pub const THRESHOLD_MEDIUM: Binary32 = 0x3f00_0000;

/// 0.3: the probability a frame must exceed at high sensitivity.
pub const THRESHOLD_HIGH: Binary32 = 0x3e99_999a;

/// How readily a detector reports speech.
#[derive(Clone, Copy, Debug, PartialEq, Eq, Structural)]
pub enum VadSensitivity {
    Low,
    Medium,
    High,
}

impl VadSensitivity {
    /// The place of a level among the levels, lowest first.
    pub open spec fn rank(self) -> int {
        match self {
            VadSensitivity::Low => 0,
            VadSensitivity::Medium => 1,
            VadSensitivity::High => 2,
        }
    }

    /// The fraction of a segment's frames that must be speech for the segment
    /// to count as speech.
    pub open spec fn spec_min_speech_ratio(&self) -> Binary32 {
        match *self {
            VadSensitivity::Low => MIN_SPEECH_RATIO_LOW,
            VadSensitivity::Medium => MIN_SPEECH_RATIO_MEDIUM,
            VadSensitivity::High => MIN_SPEECH_RATIO_HIGH,
        }
    }

    /// The probability that a frame must exceed to be taken for speech.
    pub open spec fn spec_threshold(&self) -> Binary32 {
        match *self {
            VadSensitivity::Low => THRESHOLD_LOW,
            VadSensitivity::Medium => THRESHOLD_MEDIUM,
            VadSensitivity::High => THRESHOLD_HIGH,
        }
    }

    /// Gives the fraction of a segment's frames that must be speech for the
    /// segment to count as speech.
    #[verifier::when_used_as_spec(spec_min_speech_ratio)]
    pub fn min_speech_ratio(&self) -> (ratio: Binary32)
        ensures
            ratio == self.spec_min_speech_ratio(),
    {
        match self {
            VadSensitivity::Low => MIN_SPEECH_RATIO_LOW,
            VadSensitivity::Medium => MIN_SPEECH_RATIO_MEDIUM,
            VadSensitivity::High => MIN_SPEECH_RATIO_HIGH,
        }
    }

    /// Gives the probability that a frame must exceed to be taken for speech.
    #[verifier::when_used_as_spec(spec_threshold)]
    pub fn threshold(&self) -> (threshold: Binary32)
        ensures
            threshold == self.spec_threshold(),
    {
        match self {
            VadSensitivity::Low => THRESHOLD_LOW,
            VadSensitivity::Medium => THRESHOLD_MEDIUM,
            VadSensitivity::High => THRESHOLD_HIGH,
        }
    }
}

/// The more sensitive the level, the smaller the fraction of speech frames it
/// asks of a segment.
pub proof fn lemma_min_speech_ratio_decreases(lower: VadSensitivity, higher: VadSensitivity)
    requires
        lower.rank() < higher.rank(),
    ensures
        gt(lower.min_speech_ratio(), higher.min_speech_ratio()),
{
}

/// The more sensitive the level, the lower the probability a frame must exceed.
pub proof fn lemma_threshold_decreases(lower: VadSensitivity, higher: VadSensitivity)
    requires
        lower.rank() < higher.rank(),
    ensures
        gt(lower.threshold(), higher.threshold()),
{
}

} // verus!
