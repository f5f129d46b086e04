//! Voice activity detection: the decisions around a frame detector.
//!
//! An engine is told, frame by frame, whether the frame holds speech. Two
//! engines are offered. [`WebRtcVad`] hands each frame to the WebRTC detector,
//! in the mode of the current sensitivity. [`SileroVad`] takes the speech
//! probability that the Silero detector gave for the frame, smooths it over
//! the most recent frames and holds it against the threshold of the current
//! sensitivity.
//!
//! Numbers in single precision cross the library as their bit patterns: see
//! [`binary32`].
pub mod binary32;
pub mod engine;
pub mod error;
pub mod pcm;
pub mod sensitivity;
pub mod silero;
pub mod smoother;
pub mod webrtc;

pub use binary32::Binary32;
pub use engine::{create_vad_engine, Engine, VadEngine, VadEngineEnum};
pub use error::VadError;
pub use sensitivity::VadSensitivity;
pub use silero::SileroVad;
pub use smoother::{TemporalSmoother, VadStatus};
pub use webrtc::{Aggressiveness, WebRtcVad};
