//! Conversion of WAV audio to 8 kHz mu-law.

pub mod transcoder;
