//! Decision logic of a dictation client: session authentication, the streaming
//! transcription session and the two-stage batch pipeline, kept free of I/O.
//! Callers perform the network and device work and hand the outcomes in as
//! plain values.

pub mod asr;
pub mod audio;
pub mod config;
pub mod encoding;
pub mod http;
pub mod json;
pub mod pipeline;
pub mod session;
pub mod state;
pub mod text;

pub use crate::asr::{AuthRequest, StreamingAsrService};
pub use crate::audio::AudioRecorder;
pub use crate::config::{
    AudioConfig, AuthResponse, PlatformConfig, ProcessResponse, TranscriptionMessage, WeaveConfig,
};
pub use crate::pipeline::{TranscriptionResponse, TranscriptionTimings};
