//! The FFmpeg transcoder as the service holds it.

use crate::ffmpeg::transcoder::{transcode, Transcode, TranscodeError};
use vstd::prelude::*;

verus! {

/// The FFmpeg transcoder.
#[derive(Clone, Debug)]
pub struct FFMpegWrapper;

impl FFMpegWrapper {
    /// The transcoder, where FFmpeg could be initialised; `init` is what came of that.
    pub fn new(init: Result<(), String>) -> (res: Result<FFMpegWrapper, TranscodeError>)
        ensures
            match init {
                Ok(()) => res == Ok::<FFMpegWrapper, TranscodeError>(FFMpegWrapper),
                Err(text) => res == Err::<FFMpegWrapper, TranscodeError>(
                    TranscodeError::FFMpeg(text),
                ),
            },
    {
        match init {
            Ok(()) => Ok(FFMpegWrapper),
            Err(text) => Err(TranscodeError::FFMpeg(text)),
        }
    }

    /// Starts to convert the file `input` to the file `output`, with `metadata` set.
    pub fn transcode(&self, input: &str, metadata: &Vec<String>, output: &str) -> (res: Transcode)
        ensures
            res.input_path() == input@,
            res.output_path() == output@,
            res@.step == crate::ffmpeg::transcoder::TranscodeStep::OpenInput,
            res@.metadata == metadata@,
    {
        transcode(input, metadata, output)
    }
}

} // verus!
