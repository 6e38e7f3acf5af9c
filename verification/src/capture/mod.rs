//! The microphone half of a dictation, from the moment samples are 16 kHz mono.

pub mod config;
pub mod device;
pub mod pipeline;
pub mod preroll;
pub mod source;
pub mod speech;

pub use config::{
    CaptureConfig, SourceSpec, State, MAX_CAP_SECS, MAX_LEVEL_INTERVAL_MS, MAX_PRE_ROLL_MS,
    MIN_CAP_SECS, MIN_LEVEL_INTERVAL_MS, SAMPLE_RATE,
};
pub use preroll::PreRoll;
pub use speech::{samples_to_duration, Decision, SpeechSummary, SpeechTracker, Vad};
pub use pipeline::{Pipeline, Recording};
pub use device::DeviceInfo;
pub use source::{ring_capacity, ring_split, StreamGuard};
