//! Temporal smoothing of per-frame speech probabilities.
//!
//! A smoother keeps the most recent probabilities in a bounded queue and reads a
//! status off the queue after every new frame.
use std::collections::VecDeque;
use vstd::prelude::*;

use crate::binary32::{greater_than, gt, less_than, lt, Binary32};

verus! {

/// How many probabilities the history holds at most.
pub const FRAME_HISTORY: usize = 10;

/// 0.5: a frame with a probability above it counts as speech.
pub const SPEECH_THRESHOLD: Binary32 = 0x3f00_0000;

/// 0.35: a frame with a probability below it counts as silence.
pub const SILENCE_THRESHOLD: Binary32 = 0x3eb3_3333;

/// How many speech frames in the history make the status `Speech`.
pub const SPEECH_FRAME_THRESHOLD: usize = 3;

/// What the history says about the signal.
#[derive(Clone, Copy, Debug, PartialEq, Eq, Structural)]
pub enum VadStatus {
    Speech,
    Silence,
    Unknown,
}

/// A frame that counts towards speech.
pub open spec fn is_speech_frame(p: Binary32) -> bool {
    gt(p, SPEECH_THRESHOLD)
}

/// A frame that counts towards silence.
pub open spec fn is_silence_frame(p: Binary32) -> bool {
    lt(p, SILENCE_THRESHOLD)
}

/// The number of speech frames in a history.
pub open spec fn speech_frames(history: Seq<Binary32>) -> nat {
    history.filter(|p: Binary32| is_speech_frame(p)).len()
}

/// The number of silence frames in a history.
pub open spec fn silence_frames(history: Seq<Binary32>) -> nat {
    history.filter(|p: Binary32| is_silence_frame(p)).len()
}

/// The status of a history: `Speech` with enough speech frames, else `Silence`
/// when more than half of the frames are silence, else `Unknown`.
pub open spec fn status_of(history: Seq<Binary32>) -> VadStatus {
    if speech_frames(history) >= SPEECH_FRAME_THRESHOLD {
        VadStatus::Speech
    } else if silence_frames(history) > history.len() / 2 {
        VadStatus::Silence
    } else {
        VadStatus::Unknown
    }
}

/// The last `n` items of a sequence, or all of it when it has fewer.
pub open spec fn most_recent(s: Seq<Binary32>, n: nat) -> Seq<Binary32> {
    if s.len() > n {
        s.subrange(s.len() - n, s.len() as int)
    } else {
        s
    }
}

/// The history after one more probability has arrived.
pub open spec fn pushed(history: Seq<Binary32>, p: Binary32) -> Seq<Binary32> {
    most_recent(history.push(p), FRAME_HISTORY as nat)
}

/// The sliding window over the most recent probabilities.
pub struct TemporalSmoother {
    history: VecDeque<Binary32>,
}

impl View for TemporalSmoother {
    type V = Seq<Binary32>;

    closed spec fn view(&self) -> Seq<Binary32> {
        self.history@
    }
}

impl TemporalSmoother {
    #[verifier::type_invariant]
    spec fn bounded(&self) -> bool {
        self.history@.len() <= FRAME_HISTORY
    }

    /// A smoother that has seen no frame yet.
    pub fn new() -> (s: TemporalSmoother)
        ensures
            s@ == Seq::<Binary32>::empty(),
    {
        TemporalSmoother { history: VecDeque::with_capacity(FRAME_HISTORY) }
    }

    /// The number of probabilities held.
    pub fn len(&self) -> (n: usize)
        ensures
            n == self@.len(),
            n <= FRAME_HISTORY,
    {
        proof {
            use_type_invariant(self);
        }
        self.history.len()
    }

    /// The probabilities held, oldest first.
    pub fn history(&self) -> (v: Vec<Binary32>)
        ensures
            v@ == self@,
            v@.len() <= FRAME_HISTORY,
    {
        proof {
            use_type_invariant(self);
        }
        let n: usize = self.history.len();
        let mut v: Vec<Binary32> = Vec::new();
        let mut i: usize = 0;
        while i < n
            invariant
                n == self.history@.len(),
                i <= n,
                v@ == self.history@.take(i as int),
            decreases n - i,
        {
            v.push(self.history[i]);
            i = i + 1;
        }
        v
    }

    /// Takes in the probability of the next frame and gives the status of the
    /// history that includes it.
    pub fn update_status(&mut self, prob: Binary32) -> (status: VadStatus)
        ensures
            final(self)@ == pushed(old(self)@, prob),
            final(self)@.len() <= FRAME_HISTORY,
            status == status_of(final(self)@),
    {
        proof {
            use_type_invariant(&*self);
        }
        // Between the push and the pop the queue may hold one item too many,
        // so it is taken out of the smoother for the time.
        let mut history: VecDeque<Binary32> = VecDeque::new();
        core::mem::swap(&mut self.history, &mut history);
        history.push_back(prob);
        if history.len() > FRAME_HISTORY {
            history.pop_front();
        }
        let n: usize = history.len();
        let mut speech: usize = 0;
        let mut silence: usize = 0;
        let mut i: usize = 0;
        while i < n
            invariant
                n == history@.len(),
                i <= n,
                speech == speech_frames(history@.take(i as int)),
                silence == silence_frames(history@.take(i as int)),
                speech <= i,
                silence <= i,
            decreases n - i,
        {
            let p: Binary32 = history[i];
            proof {
                let seen = history@.take(i as int);
                history@.lemma_take_succ_push(i as int);
                seen.lemma_filter_len_push(|p: Binary32| is_speech_frame(p), p);
                seen.lemma_filter_len_push(|p: Binary32| is_silence_frame(p), p);
            }
            if greater_than(p, SPEECH_THRESHOLD) {
                speech = speech + 1;
            }
            if less_than(p, SILENCE_THRESHOLD) {
                silence = silence + 1;
            }
            i = i + 1;
        }
        assert(history@.take(n as int) =~= history@);
        self.history = history;
        if speech >= SPEECH_FRAME_THRESHOLD {
            VadStatus::Speech
        } else if silence > n / 2 {
            VadStatus::Silence
        } else {
            VadStatus::Unknown
        }
    }
}

/// The history after a run of probabilities has arrived, one after the other.
pub open spec fn pushed_all(history: Seq<Binary32>, probs: Seq<Binary32>) -> Seq<Binary32>
    decreases probs.len(),
{
    if probs.len() == 0 {
        history
    } else {
        pushed(pushed_all(history, probs.drop_last()), probs.last())
    }
}

/// A history never grows beyond its capacity.
pub proof fn lemma_pushed_bounded(history: Seq<Binary32>, p: Binary32)
    ensures
        pushed(history, p).len() <= FRAME_HISTORY,
        history.len() < FRAME_HISTORY ==> pushed(history, p) == history.push(p),
        pushed(history, p).last() == p,
{
}

/// After any run of probabilities the history holds exactly the most recent
/// ones, in the order of their arrival: what arrived first has left first.
pub proof fn lemma_history_keeps_most_recent(history: Seq<Binary32>, probs: Seq<Binary32>)
    requires
        history.len() <= FRAME_HISTORY,
    ensures
        pushed_all(history, probs) == most_recent(history + probs, FRAME_HISTORY as nat),
        pushed_all(history, probs).len() <= FRAME_HISTORY,
    decreases probs.len(),
{
    if probs.len() > 0 {
        let before = probs.drop_last();
        lemma_history_keeps_most_recent(history, before);
        assert(pushed_all(history, probs) =~= most_recent(
            history + probs,
            FRAME_HISTORY as nat,
        ));
    }
}

/// Once more probabilities have arrived than the history holds, nothing of
/// what was there before is left: the history is the last ones that arrived.
pub proof fn lemma_history_forgets(history: Seq<Binary32>, probs: Seq<Binary32>)
    requires
        history.len() <= FRAME_HISTORY,
        probs.len() >= FRAME_HISTORY,
    ensures
        pushed_all(history, probs) == probs.subrange(
            probs.len() - FRAME_HISTORY,
            probs.len() as int,
        ),
{
    lemma_history_keeps_most_recent(history, probs);
    assert(most_recent(history + probs, FRAME_HISTORY as nat) =~= probs.subrange(
        probs.len() - FRAME_HISTORY,
        probs.len() as int,
    ));
}

/// A new frame adds at most itself to the speech frames of a history, and
/// only if it is a speech frame: the frames that leave add nothing.
pub proof fn lemma_speech_frames_of_pushed(history: Seq<Binary32>, p: Binary32)
    ensures
        speech_frames(pushed(history, p)) <= speech_frames(history) + (if is_speech_frame(p) {
            1nat
        } else {
            0nat
        }),
{
    let all = history.push(p);
    let speech = |p: Binary32| is_speech_frame(p);
    history.lemma_filter_len_push(speech, p);
    if all.len() > FRAME_HISTORY {
        let cut = all.len() - FRAME_HISTORY;
        let gone = all.subrange(0, cut);
        let kept = all.subrange(cut, all.len() as int);
        assert(gone + kept =~= all);
        Seq::filter_distributes_over_add(gone, kept, speech);
    }
}

/// Which histories have which status. Enough speech frames make `Speech`
/// whatever the other frames are; short of that, a majority of silence frames
/// makes `Silence`, and anything else is `Unknown`.
pub proof fn lemma_status_rules(history: Seq<Binary32>)
    ensures
        status_of(history) == VadStatus::Speech <==> speech_frames(history)
            >= SPEECH_FRAME_THRESHOLD,
        status_of(history) == VadStatus::Silence <==> speech_frames(history)
            < SPEECH_FRAME_THRESHOLD && 2 * silence_frames(history) > history.len(),
        status_of(history) == VadStatus::Unknown <==> speech_frames(history)
            < SPEECH_FRAME_THRESHOLD && 2 * silence_frames(history) <= history.len(),
{
}

/// A history with no speech frame and no majority of silence frames is
/// `Unknown`.
pub proof fn lemma_undecided_history_is_unknown(history: Seq<Binary32>)
    requires
        forall|i: int| 0 <= i < history.len() ==> !is_speech_frame(history[i]),
        2 * silence_frames(history) <= history.len(),
    ensures
        status_of(history) == VadStatus::Unknown,
{
    history.lemma_all_neg_filter_empty(|p: Binary32| is_speech_frame(p));
}

/// Where every item meets a condition, as many items meet it as there are.
proof fn lemma_filter_keeps_all(s: Seq<Binary32>, pred: spec_fn(Binary32) -> bool)
    requires
        forall|i: int| 0 <= i < s.len() ==> pred(s[i]),
    ensures
        s.filter(pred).len() == s.len(),
    decreases s.len(),
{
    reveal(Seq::filter);
    if s.len() > 0 {
        lemma_filter_keeps_all(s.drop_last(), pred);
    }
}

/// A history of speech frames alone, as many as `Speech` asks for, is
/// `Speech`; a history of silence frames alone is `Silence`.
pub proof fn lemma_unanimous_history(history: Seq<Binary32>)
    ensures
        history.len() >= SPEECH_FRAME_THRESHOLD && (forall|i: int|
            0 <= i < history.len() ==> is_speech_frame(history[i])) ==> status_of(history)
            == VadStatus::Speech,
        history.len() >= 1 && (forall|i: int|
            0 <= i < history.len() ==> is_silence_frame(history[i])) ==> status_of(history)
            == VadStatus::Silence,
{
    if forall|i: int| 0 <= i < history.len() ==> is_speech_frame(history[i]) {
        lemma_filter_keeps_all(history, |p: Binary32| is_speech_frame(p));
    }
    if forall|i: int| 0 <= i < history.len() ==> is_silence_frame(history[i]) {
        lemma_filter_keeps_all(history, |p: Binary32| is_silence_frame(p));
        history.lemma_all_neg_filter_empty(|p: Binary32| is_speech_frame(p));
    }
}

} // verus!
