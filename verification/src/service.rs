//! The conversion service: what it refuses, what it does for a request and in which
//! order, and what it answers.

use crate::ffmpeg::wrapper::FFMpegWrapper;
use crate::messages::AudioFormat;
use crate::ulaw::transcoder::ULaw;
use vstd::prelude::*;

pub mod convert;
pub mod stream;
pub mod writer;

verus! {

/// Why a request fails.
#[derive(Debug)]
pub enum SrvError {
    /// The request asks for what the service does not do.
    InvalidArgument(String),
    /// The service could not do it.
    Other(String),
}

/// The kinds of failure that a client is told.
#[derive(Clone, Copy, Debug, PartialEq, Eq, Structural)]
pub enum Code {
    InvalidArgument,
    Internal,
}

/// What a client is told of a failure.
#[derive(Debug)]
pub struct Status {
    pub code: Code,
    pub message: String,
}

impl SrvError {
    /// The text of an error.
    pub open spec fn text(&self) -> Seq<char> {
        match self {
            SrvError::InvalidArgument(text) => text@,
            SrvError::Other(text) => text@,
        }
    }

    /// The text of the error.
    pub fn message(&self) -> (res: String)
        ensures
            res@ == self.text(),
    {
        match self {
            SrvError::InvalidArgument(text) => text.clone(),
            SrvError::Other(text) => text.clone(),
        }
    }
}

impl Status {
    /// The status tells a client of `err`: the text as it is where the request is at
    /// fault, else marked as an internal error.
    pub open spec fn tells(&self, err: SrvError) -> bool {
        match err {
            SrvError::InvalidArgument(text) => self.code == Code::InvalidArgument
                && self.message@ == text@,
            SrvError::Other(text) => self.code == Code::Internal && self.message@ == "error: "@
                + text@,
        }
    }

    /// What a client is told of a failed request.
    pub fn from(err: SrvError) -> (res: Status)
        ensures
            res.tells(err),
    {
        match err {
            SrvError::InvalidArgument(text) => Status {
                code: Code::InvalidArgument,
                message: text,
            },
            SrvError::Other(text) => {
                let mut message = "error: ".to_owned();
                message.append(text.as_str());
                Status { code: Code::Internal, message }
            },
        }
    }

    /// What a client is told of a failure after its stream has been accepted.
    pub fn in_stream(err: &SrvError) -> (res: Status)
        ensures
            res.code == Code::Internal,
            res.message@ == "Error: "@ + err.text(),
    {
        let mut message = "Error: ".to_owned();
        message.append(err.message().as_str());
        Status { code: Code::Internal, message }
    }
}

/// What can go wrong around a conversion.
#[derive(Debug)]
pub enum Fault {
    /// No temporary directory could be made.
    CreateDir,
    /// The path of the temporary directory is no text.
    DirPath,
    /// A file could not be created.
    CreateFile,
    /// The input of a single request could not be written.
    WriteInput,
    /// A piece of a stream could not be written.
    WriteChunk,
    /// The written stream could not be synced.
    SyncFile,
    /// The transcoder failed.
    Transcode,
    /// The thread of the transcoder failed, for the given reason.
    Thread(String),
    /// The result could not be read; the path is quoted.
    ReadOutput(String),
    /// The result could not be opened; the path is quoted.
    OpenOutput(String),
    /// The client takes no more messages.
    Send,
}

impl Fault {
    /// The text of a fault.
    pub open spec fn text(&self) -> Seq<char> {
        match self {
            Fault::CreateDir => "tmp dir create"@,
            Fault::DirPath => "no tmp dir path"@,
            Fault::CreateFile => "file create"@,
            Fault::WriteInput => "file write"@,
            Fault::WriteChunk => "write file"@,
            Fault::SyncFile => "sync file"@,
            Fault::Transcode => "transcode"@,
            Fault::Thread(reason) => reason@,
            Fault::ReadOutput(path) => "failed to read file: "@ + path@,
            Fault::OpenOutput(path) => "can't open "@ + path@,
            Fault::Send => "can't send"@,
        }
    }

    /// The error of a request that a fault has stopped.
    pub fn error(&self) -> (res: SrvError)
        ensures
            res is Other,
            res.text() == self.text(),
    {
        SrvError::Other(
            match self {
                Fault::CreateDir => "tmp dir create".to_owned(),
                Fault::DirPath => "no tmp dir path".to_owned(),
                Fault::CreateFile => "file create".to_owned(),
                Fault::WriteInput => "file write".to_owned(),
                Fault::WriteChunk => "write file".to_owned(),
                Fault::SyncFile => "sync file".to_owned(),
                Fault::Transcode => "transcode".to_owned(),
                Fault::Thread(reason) => reason.clone(),
                Fault::ReadOutput(path) => {
                    let mut out = "failed to read file: ".to_owned();
                    out.append(path.as_str());
                    out
                },
                Fault::OpenOutput(path) => {
                    let mut out = "can't open ".to_owned();
                    out.append(path.as_str());
                    out
                },
                Fault::Send => "can't send".to_owned(),
            },
        )
    }
}

/// The text of the refusal of a format number that stands for no format.
pub open spec fn invalid_format_text(number: i32) -> Seq<char> {
    "invalid audio format: "@ + crate::text::decimal(number as int)
}

/// The format to convert to, where `number` names one.
pub open spec fn wanted_format(number: i32) -> Option<AudioFormat> {
    match AudioFormat::spec_from_number(number) {
        Some(AudioFormat::Unspecified) => None,
        other => other,
    }
}

/// Why `number` names no format to convert to.
pub open spec fn format_refusal(number: i32) -> Seq<char> {
    if AudioFormat::spec_from_number(number) is None {
        invalid_format_text(number)
    } else {
        "audio format unspecified"@
    }
}

/// Refuses the format that stands for none.
pub fn validate_format(format: AudioFormat) -> (res: Result<(), SrvError>)
    ensures
        format == AudioFormat::Unspecified ==> (res matches Err(SrvError::InvalidArgument(text))
            && text@ == "audio format unspecified"@),
        format != AudioFormat::Unspecified ==> res is Ok,
{
    if format == AudioFormat::Unspecified {
        return Err(SrvError::InvalidArgument("audio format unspecified".to_owned()));
    }
    Ok(())
}

/// Reads the format to convert to from its number.
pub fn read_format(number: i32) -> (res: Result<AudioFormat, SrvError>)
    ensures
        match wanted_format(number) {
            Some(format) => res == Ok::<AudioFormat, SrvError>(format),
            None => res matches Err(SrvError::InvalidArgument(text)) && text@ == format_refusal(
                number,
            ),
        },
{
    match AudioFormat::from_number(number) {
        None => {
            let mut text = "invalid audio format: ".to_owned();
            text.append(crate::text::decimal_string(number as i64).as_str());
            Err(SrvError::InvalidArgument(text))
        },
        Some(format) => match validate_format(format) {
            Err(err) => Err(err),
            Ok(()) => Ok(format),
        },
    }
}

/// The name of the file that holds the input.
pub open spec fn input_file() -> Seq<char> {
    "input.wav"@
}

/// The name of the file that holds the result.
pub open spec fn output_file(format: AudioFormat) -> Seq<char> {
    "output."@ + match format {
        AudioFormat::Mp3 => "mp3"@,
        AudioFormat::M4a => "m4a"@,
        _ => "ulaw"@,
    }
}

/// The name of the file that holds the input.
pub fn prepare_input_file() -> (res: String)
    ensures
        res@ == input_file(),
{
    "input.wav".to_owned()
}

/// The name of the file that holds the result; its ending tells the format.
pub fn prepare_output_file(format: AudioFormat) -> (res: String)
    requires
        format != AudioFormat::Unspecified,
    ensures
        res@ == output_file(format),
{
    let ext = match format {
        AudioFormat::Mp3 => "mp3",
        AudioFormat::M4a => "m4a",
        _ => "ulaw",
    };
    let mut res = "output.".to_owned();
    res.append(ext);
    res
}

/// The address at which the service listens: the given port, on all interfaces.
pub fn listen_address(port: u16) -> (res: String)
    ensures
        res@ == "[::]:"@ + crate::text::decimal(port as int),
{
    let mut res = "[::]:".to_owned();
    res.append(crate::text::decimal_string(port as i64).as_str());
    res
}

/// The service with its two transcoders.
#[derive(Debug)]
pub struct Service {
    pub transcoder: FFMpegWrapper,
    pub ulaw_transcoder: ULaw,
}

impl Service {
    /// A service that uses the given transcoders.
    pub fn new(transcoder: FFMpegWrapper, ulaw_transcoder: ULaw) -> (res: Service)
        ensures
            res.transcoder == transcoder,
            res.ulaw_transcoder == ulaw_transcoder,
    {
        Service { transcoder, ulaw_transcoder }
    }
}

} // verus!
