//! The verified core of a service that converts WAV audio to MP3, M4A and mu-law.
//!
//! Files, the network, FFmpeg and the resampler stay outside: what depends on them is a
//! state machine here, which is told what came of each thing it asked for and says what
//! to do next.

use vstd::prelude::*;

pub mod client;
pub mod ffmpeg;
pub mod laws;
pub mod messages;
pub mod otel;
pub mod pieces;
pub mod service;
pub mod text;
pub mod ulaw;

verus! {

/// The name of the service.
pub const SERVICE_NAME: &'static str = "audio-convert-rs";

/// The port at which the service listens, and a client calls it, where none is given.
pub const DEFAULT_PORT: u16 = 50051;

} // verus!
