//! The messages of the conversion service.

use vstd::prelude::*;

verus! {

/// The audio formats that a request can name.
#[derive(Clone, Copy, Debug, PartialEq, Eq, Structural)]
pub enum AudioFormat {
    Unspecified,
    Mp3,
    M4a,
    Ulaw,
}

impl AudioFormat {
    /// The number that stands for the format in a message.
    pub open spec fn spec_number(self) -> i32 {
        match self {
            AudioFormat::Unspecified => 0,
            AudioFormat::Mp3 => 1,
            AudioFormat::M4a => 2,
            AudioFormat::Ulaw => 3,
        }
    }

    /// The format that `number` stands for, if any.
    pub open spec fn spec_from_number(number: i32) -> Option<AudioFormat> {
        if number == 0 {
            Some(AudioFormat::Unspecified)
        } else if number == 1 {
            Some(AudioFormat::Mp3)
        } else if number == 2 {
            Some(AudioFormat::M4a)
        } else if number == 3 {
            Some(AudioFormat::Ulaw)
        } else {
            None
        }
    }

    /// The format that goes by `name`. Any name but those of the three audio formats is
    /// that of no format.
    pub open spec fn spec_from_name(name: Seq<char>) -> AudioFormat {
        if name == "MP3"@ {
            AudioFormat::Mp3
        } else if name == "M4A"@ {
            AudioFormat::M4a
        } else if name == "ULAW"@ {
            AudioFormat::Ulaw
        } else {
            AudioFormat::Unspecified
        }
    }

    /// The number that stands for the format in a message.
    pub fn number(self) -> (res: i32)
        ensures
            res == self.spec_number(),
    {
        match self {
            AudioFormat::Unspecified => 0,
            AudioFormat::Mp3 => 1,
            AudioFormat::M4a => 2,
            AudioFormat::Ulaw => 3,
        }
    }

    /// The format that `number` stands for, if any.
    pub fn from_number(number: i32) -> (res: Option<AudioFormat>)
        ensures
            res == Self::spec_from_number(number),
    {
        match number {
            0 => Some(AudioFormat::Unspecified),
            1 => Some(AudioFormat::Mp3),
            2 => Some(AudioFormat::M4a),
            3 => Some(AudioFormat::Ulaw),
            _ => None,
        }
    }

    /// The format that goes by `name`, or `Unspecified`.
    pub fn from_name(name: &str) -> (res: AudioFormat)
        ensures
            res == Self::spec_from_name(name@),
    {
        let name = name.to_owned();
        if name == "MP3".to_owned() {
            AudioFormat::Mp3
        } else if name == "M4A".to_owned() {
            AudioFormat::M4a
        } else if name == "ULAW".to_owned() {
            AudioFormat::Ulaw
        } else {
            AudioFormat::Unspecified
        }
    }
}

/// A number read back from a format gives that format.
pub proof fn law_number_round_trip(format: AudioFormat)
    ensures
        AudioFormat::spec_from_number(format.spec_number()) == Some(format),
{
}

/// A request to convert a file in one message.
pub struct ConvertInput {
    /// The number of the wanted format.
    pub format: i32,
    /// Entries `key=value` for the metadata of the result.
    pub metadata: Vec<String>,
    /// The content of a WAV file.
    pub data: Vec<u8>,
}

/// The answer to a request in one message.
pub struct ConvertReply {
    /// The content of the converted file.
    pub data: Vec<u8>,
}

/// What the first message of a stream says of the conversion.
pub struct InitialMetadata {
    /// The number of the wanted format.
    pub format: i32,
    /// Entries `key=value` for the metadata of the result.
    pub metadata: Vec<String>,
}

/// What a message of a stream holds.
pub enum Payload {
    /// What is wanted.
    Metadata(InitialMetadata),
    /// A piece of a WAV file.
    Chunk(Vec<u8>),
}

/// A message of a stream from the client.
pub struct StreamConvertInput {
    pub payload: Option<Payload>,
}

/// A message of a stream to the client.
pub struct StreamFileReply {
    /// A piece of the converted file.
    pub chunk: Vec<u8>,
}

} // verus!
