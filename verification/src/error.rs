//! What can go wrong in classifying a frame.
use vstd::prelude::*;

verus! {

/// Why a frame got no verdict. The engine stays usable, and its state is as
/// it was before the frame.
#[derive(Debug)]
pub enum VadError {
    /// The frame is not 10, 20 or 30 ms long.
    FrameLength,
    /// The detector failed on the frame; the text is the detector's own.
    Compute(String),
}

} // verus!
