//! Conversion of audio files with FFmpeg.

pub mod transcoder;
pub mod wrapper;
