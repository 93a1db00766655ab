//! What callers can rely on, stated of the calls themselves: each law speaks of what goes
//! into a call and what comes out of it.

pub mod client;
pub mod convert;
pub mod ffmpeg;
pub mod stream;
pub mod text;
pub mod ulaw;
pub mod writer;
