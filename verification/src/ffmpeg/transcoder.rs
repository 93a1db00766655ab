//! The course of an FFmpeg conversion: how the encoder is set up, and in which order
//! packets and frames go from the input through decoder, filter and encoder to the
//! output.

use crate::text::{contains, decimal_string, split_first};
use vstd::prelude::*;

verus! {

/// Why a conversion stops.
#[derive(Debug)]
pub enum TranscodeError {
    /// FFmpeg reports this.
    FFMpeg(String),
    /// A metadata entry has no key.
    InvalidMetadata,
    /// The filter has lost its end.
    NoSink,
}

impl TranscodeError {
    /// The text of an error.
    pub open spec fn text(&self) -> Seq<char> {
        match self {
            TranscodeError::FFMpeg(text) => text@,
            TranscodeError::InvalidMetadata => "Invalid metadata key-value pair"@,
            TranscodeError::NoSink => "Failed to get 'out' filter sink"@,
        }
    }

    /// The text of the error.
    pub fn message(&self) -> (res: String)
        ensures
            res@ == self.text(),
    {
        match self {
            TranscodeError::FFMpeg(text) => text.clone(),
            TranscodeError::InvalidMetadata => "Invalid metadata key-value pair".to_owned(),
            TranscodeError::NoSink => "Failed to get 'out' filter sink".to_owned(),
        }
    }
}

/// A metadata entry has a key: something stands before its first `=`.
pub open spec fn has_key(entry: Seq<char>) -> bool {
    entry.len() > 0 && entry[0] != '='
}

/// All metadata entries have a key.
pub open spec fn all_have_keys(entries: Seq<String>) -> bool {
    forall|i: int| 0 <= i < entries.len() ==> has_key((#[trigger] entries[i])@)
}

/// The pair is the key and the value of a metadata entry.
pub open spec fn is_entry(entry: String, pair: (String, String)) -> bool {
    crate::text::is_split(entry@, '=', pair.0@, pair.1@)
}

/// The pairs are the keys and values of the metadata entries, in the same order.
pub open spec fn are_entries(entries: Seq<String>, pairs: Seq<(String, String)>) -> bool {
    &&& pairs.len() == entries.len()
    &&& forall|i: int| 0 <= i < entries.len() ==> is_entry(entries[i], #[trigger] pairs[i])
}

/// Reads metadata entries `key=value`. They are to be set in this order, each in place
/// of what the input has under that key. Without `=` the value is empty; an entry
/// without a key is refused, and all others with it.
pub fn prepare_metadata(entries: &Vec<String>) -> (res: Result<
    Vec<(String, String)>,
    TranscodeError,
>)
    ensures
        all_have_keys(entries@) ==> (res matches Ok(pairs) && are_entries(entries@, pairs@)),
        !all_have_keys(entries@) ==> res == Err::<Vec<(String, String)>, TranscodeError>(
            TranscodeError::InvalidMetadata,
        ),
{
    let mut pairs: Vec<(String, String)> = Vec::new();
    let mut i: usize = 0;
    while i < entries.len()
        invariant
            i <= entries@.len(),
            pairs@.len() == i,
            forall|j: int| 0 <= j < i ==> has_key((#[trigger] entries@[j])@),
            forall|j: int| 0 <= j < i ==> is_entry(entries@[j], #[trigger] pairs@[j]),
        decreases entries@.len() - i,
    {
        let pair = split_first(entries[i].as_str(), '=');
        if pair.0.as_str().is_empty() {
            proof {
                let entry = entries@[i as int]@;
                if entry.contains('=') {
                    assert(entry[0] == '=');
                }
                assert(!has_key(entries@[i as int]@));
            }
            return Err(TranscodeError::InvalidMetadata);
        }
        proof {
            let entry = entries@[i as int]@;
            assert(pair.0@.contains(pair.0@[0]));
            assert(entry[0] == pair.0@[0]);
        }
        pairs.push(pair);
        i += 1;
    }
    Ok(pairs)
}

/// An entry with a `=` can be put together again from its key and value.
pub proof fn law_metadata_rejoins(entry: String, pair: (String, String))
    requires
        is_entry(entry, pair),
        entry@.contains('='),
    ensures
        entry@ == pair.0@ + "="@ + pair.1@,
{
    reveal_strlit("=");
    assert(pair.0@.push('=') + pair.1@ =~= pair.0@ + "="@ + pair.1@);
}

/// The unit of a time stamp: `num / den` seconds.
#[derive(Clone, Copy, Debug, PartialEq, Eq, Structural)]
pub struct TimeBase {
    pub num: i32,
    pub den: i32,
}

/// How the channel layout of the encoder is chosen.
#[derive(Clone, Copy, Debug, PartialEq, Eq, Structural)]
pub enum LayoutChoice {
    /// The best of the layouts that the codec lists, for this many channels.
    BestFor(u32),
    /// One channel.
    Mono,
}

/// How the encoder is set up.
#[derive(Clone, Copy, Debug, PartialEq, Eq, Structural)]
pub struct EncoderSettings {
    /// Whether the stream header goes to the front of the output.
    pub global_header: bool,
    pub layout: LayoutChoice,
    /// Samples per second.
    pub rate: i32,
    pub max_bit_rate: usize,
    /// The quality, where it is set.
    pub quality: Option<usize>,
    /// The bit rate, where it is set.
    pub bit_rate: Option<usize>,
    /// The time base of the encoder and of the output.
    pub time_base: TimeBase,
}

/// What is known of codec, container and decoder when the encoder is set up.
pub struct CodecFacts {
    /// The description of the codec.
    pub description: String,
    /// Whether the codec lists the channel layouts that it supports.
    pub lists_layouts: bool,
    /// Whether the container wants a global header.
    pub global_header: bool,
    /// The channels of the input.
    pub channels: u32,
    /// The samples per second of the input.
    pub rate: u32,
    /// The highest bit rate of the input.
    pub max_bit_rate: usize,
}

/// The bit rate of MP3 output.
pub const MP3_BIT_RATE: usize = 50000;

/// The quality of MP3 output.
pub const MP3_QUALITY: usize = 4;

/// The settings of the encoder: rate, channels and the limit of the bit rate are those of
/// the input; MP3 has a quality and a bit rate of its own.
pub fn encoder_settings(facts: &CodecFacts) -> (res: EncoderSettings)
    ensures
        res.global_header == facts.global_header,
        res.layout == (if facts.lists_layouts {
            LayoutChoice::BestFor(facts.channels)
        } else {
            LayoutChoice::Mono
        }),
        res.rate == facts.rate as i32,
        res.max_bit_rate == facts.max_bit_rate,
        res.time_base == (TimeBase { num: 1, den: facts.rate as i32 }),
        crate::text::has_substring(facts.description@, "mp3"@) ==> res.quality == Some(4usize)
            && res.bit_rate == Some(50000usize),
        !crate::text::has_substring(facts.description@, "mp3"@) ==> res.quality is None
            && res.bit_rate is None,
{
    let layout = if facts.lists_layouts {
        LayoutChoice::BestFor(facts.channels)
    } else {
        LayoutChoice::Mono
    };
    let mp3 = contains(facts.description.as_str(), "mp3");
    let rate = #[verifier::truncate] (facts.rate as i32);
    EncoderSettings {
        global_header: facts.global_header,
        layout,
        rate,
        max_bit_rate: facts.max_bit_rate,
        quality: if mp3 { Some(MP3_QUALITY) } else { None },
        bit_rate: if mp3 { Some(MP3_BIT_RATE) } else { None },
        time_base: TimeBase { num: 1, den: rate },
    }
}

/// The description of the filter's source: what the decoder puts out.
pub fn filter_args(time_base: TimeBase, rate: u32, sample_format: &str) -> (res: String)
    ensures
        res@ == "time_base="@ + crate::text::decimal(time_base.num as int) + "/"@
            + crate::text::decimal(time_base.den as int) + ":sample_rate="@ + crate::text::decimal(
            rate as int,
        ) + ":sample_fmt="@ + sample_format@ + ":channel_layout=0x2"@,
{
    let mut res = "time_base=".to_owned();
    res.append(decimal_string(time_base.num as i64).as_str());
    res.append("/");
    res.append(decimal_string(time_base.den as i64).as_str());
    res.append(":sample_rate=");
    res.append(decimal_string(rate as i64).as_str());
    res.append(":sample_fmt=");
    res.append(sample_format);
    res.append(":channel_layout=0x2");
    res
}

/// The frame size that the filter's end is held to: that of the encoder, where it is
/// known to be fixed. `variable` says whether it is not, where the codec is known.
pub fn sink_frame_size(variable: Option<bool>, frame_size: u32) -> (res: Option<u32>)
    ensures
        res == (if variable == Some(false) { Some(frame_size) } else { None }),
{
    match variable {
        Some(false) => Some(frame_size),
        _ => None,
    }
}

/// The filter to use: the third argument of the program, or one that changes nothing.
pub fn filter_spec(args: &Vec<String>) -> (res: String)
    ensures
        args@.len() > 3 ==> res@ == args@[3]@,
        args@.len() <= 3 ==> res@ == "anull"@,
{
    if args.len() > 3 {
        args[3].clone()
    } else {
        "anull".to_owned()
    }
}

/// How far the input has been read while packets and frames move on.
#[derive(Clone, Copy, Debug, PartialEq, Eq, Structural)]
pub enum Stage {
    /// Packets of the input are still coming.
    Packets,
    /// The decoder has got its end of input.
    DecoderEof,
    /// The filter has been flushed.
    FilterEof,
    /// The encoder has got its end of input.
    EncoderEof,
}

/// What a conversion does next.
#[derive(Clone, Copy, Debug, PartialEq, Eq, Structural)]
pub enum TranscodeStep {
    /// Open the input.
    OpenInput,
    /// Open the output.
    OpenOutput,
    /// Set up decoder, encoder and filter.
    Setup,
    /// Set the metadata and write the header of the output.
    WriteHeader,
    /// Read the next packet of the input.
    ReadPacket,
    /// Rescale the packet and send it to the decoder.
    SendPacket { from: TimeBase, to: TimeBase },
    /// Ask the decoder for a frame.
    ReceiveFrame(Stage),
    /// Give the frame to the filter.
    AddFrame(Stage),
    /// Ask the filter for a frame.
    PullFrame(Stage),
    /// Send the frame to the encoder.
    SendFrame(Stage),
    /// Ask the encoder for a packet.
    ReceivePacket(Stage),
    /// Rescale the packet and write it to the given stream of the output.
    WritePacket { stage: Stage, stream: usize, from: TimeBase, to: TimeBase },
    /// Tell the decoder that the input ends.
    SendDecoderEof,
    /// Flush the filter.
    FlushFilter,
    /// Tell the encoder that the input ends.
    SendEncoderEof,
    /// Write the trailer of the output.
    WriteTrailer,
    /// Nothing: the output is complete.
    Done,
    /// Nothing: the conversion has stopped with an error.
    Failed,
}

/// What has come of a step.
pub enum TranscodeEvent {
    /// It is done.
    Done,
    /// FFmpeg reports an error.
    Failed(String),
    /// All is set up: the audio stream of the input, and the time bases.
    Configured { stream: usize, in_time_base: TimeBase, out_time_base: TimeBase },
    /// A packet of the given stream, with the time base of that stream.
    Packet { stream: usize, time_base: TimeBase },
    /// A packet that cannot be read.
    BadPacket,
    /// The input has no more packets.
    EndOfInput,
    /// A frame, or a packet, has come out.
    Received,
    /// Nothing has come out.
    Nothing,
    /// The filter has no end to ask for frames.
    NoSink,
}

/// The audio stream of the input, and the time bases of a conversion.
#[derive(Clone, Copy, Debug, PartialEq, Eq, Structural)]
pub struct Transcoder {
    pub stream: usize,
    pub in_time_base: TimeBase,
    pub out_time_base: TimeBase,
}

/// A conversion, as contracts see it.
pub struct TranscodeView {
    /// The metadata entries to set.
    pub metadata: Seq<String>,
    pub transcoder: Transcoder,
    /// What is done next.
    pub step: TranscodeStep,
}

/// A conversion of one file.
pub struct Transcode {
    input: String,
    output: String,
    metadata: Vec<String>,
    pairs: Vec<(String, String)>,
    transcoder: Transcoder,
    step: TranscodeStep,
}

impl TranscodeStep {
    /// `event` can come of the step.
    pub open spec fn answered_by(self, event: TranscodeEvent) -> bool {
        match event {
            TranscodeEvent::Done => !(self is Setup || self is ReadPacket || self.asks()
                || self is Done || self is Failed),
            TranscodeEvent::Failed(_) => !(self is ReadPacket || self.asks() || self is Done
                || self is Failed),
            TranscodeEvent::Configured { .. } => self is Setup,
            TranscodeEvent::Packet { .. } => self is ReadPacket,
            TranscodeEvent::BadPacket => self is ReadPacket,
            TranscodeEvent::EndOfInput => self is ReadPacket,
            TranscodeEvent::Received => self.asks(),
            TranscodeEvent::Nothing => self.asks(),
            TranscodeEvent::NoSink => self is PullFrame,
        }
    }

    /// The step asks for something that may not be there.
    pub open spec fn asks(self) -> bool {
        self is ReceiveFrame || self is PullFrame || self is ReceivePacket
    }
}

impl TranscodeView {
    /// The conversion with another step to do.
    pub open spec fn at(self, step: TranscodeStep) -> TranscodeView {
        TranscodeView { step, ..self }
    }

    /// The step after one that is done.
    pub open spec fn next_step(self) -> TranscodeStep {
        match self.step {
            TranscodeStep::OpenInput => TranscodeStep::OpenOutput,
            TranscodeStep::OpenOutput => TranscodeStep::Setup,
            TranscodeStep::WriteHeader => TranscodeStep::ReadPacket,
            TranscodeStep::SendPacket { .. } => TranscodeStep::ReceiveFrame(Stage::Packets),
            TranscodeStep::AddFrame(stage) => TranscodeStep::PullFrame(stage),
            TranscodeStep::SendFrame(stage) => TranscodeStep::ReceivePacket(stage),
            TranscodeStep::WritePacket { stage, .. } => TranscodeStep::ReceivePacket(stage),
            TranscodeStep::SendDecoderEof => TranscodeStep::ReceiveFrame(Stage::DecoderEof),
            TranscodeStep::FlushFilter => TranscodeStep::PullFrame(Stage::FilterEof),
            TranscodeStep::SendEncoderEof => TranscodeStep::ReceivePacket(Stage::EncoderEof),
            TranscodeStep::WriteTrailer => TranscodeStep::Done,
            other => other,
        }
    }

    /// The step that passes on what has come out.
    pub open spec fn pass_on(self) -> TranscodeStep {
        match self.step {
            TranscodeStep::ReceiveFrame(stage) => TranscodeStep::AddFrame(stage),
            TranscodeStep::PullFrame(stage) => TranscodeStep::SendFrame(stage),
            TranscodeStep::ReceivePacket(stage) => TranscodeStep::WritePacket {
                stage,
                stream: 0,
                from: self.transcoder.in_time_base,
                to: self.transcoder.out_time_base,
            },
            other => other,
        }
    }

    /// The step after one that found nothing: a part that has nothing more to give is
    /// left for the one before it, and, where that has got its end of input, for the
    /// end of input of the next.
    pub open spec fn exhausted(self) -> TranscodeStep {
        match self.step {
            TranscodeStep::ReceiveFrame(Stage::Packets) => TranscodeStep::ReadPacket,
            TranscodeStep::ReceiveFrame(_) => TranscodeStep::FlushFilter,
            TranscodeStep::PullFrame(Stage::FilterEof) => TranscodeStep::SendEncoderEof,
            TranscodeStep::PullFrame(stage) => TranscodeStep::ReceiveFrame(stage),
            TranscodeStep::ReceivePacket(Stage::EncoderEof) => TranscodeStep::WriteTrailer,
            TranscodeStep::ReceivePacket(stage) => TranscodeStep::PullFrame(stage),
            other => other,
        }
    }

    /// The conversion after `event`.
    pub open spec fn after(self, event: TranscodeEvent) -> TranscodeView {
        match event {
            TranscodeEvent::Done => self.at(self.next_step()),
            TranscodeEvent::Failed(_) => self.at(TranscodeStep::Failed),
            TranscodeEvent::Configured { stream, in_time_base, out_time_base } => TranscodeView {
                metadata: self.metadata,
                transcoder: Transcoder { stream, in_time_base, out_time_base },
                step: if all_have_keys(self.metadata) {
                    TranscodeStep::WriteHeader
                } else {
                    TranscodeStep::Failed
                },
            },
            TranscodeEvent::Packet { stream, time_base } => if stream == self.transcoder.stream {
                self.at(
                    TranscodeStep::SendPacket {
                        from: time_base,
                        to: self.transcoder.in_time_base,
                    },
                )
            } else {
                self
            },
            TranscodeEvent::BadPacket => self,
            TranscodeEvent::EndOfInput => self.at(TranscodeStep::SendDecoderEof),
            TranscodeEvent::Received => self.at(self.pass_on()),
            TranscodeEvent::Nothing => self.at(self.exhausted()),
            TranscodeEvent::NoSink => self.at(TranscodeStep::Failed),
        }
    }

    /// The error with which `event` stops the conversion, if any.
    pub open spec fn error_of(self, event: TranscodeEvent) -> Option<Seq<char>> {
        match event {
            TranscodeEvent::Failed(text) => Some(text@),
            TranscodeEvent::NoSink => Some("Failed to get 'out' filter sink"@),
            TranscodeEvent::Configured { .. } => if all_have_keys(self.metadata) {
                None
            } else {
                Some("Invalid metadata key-value pair"@)
            },
            _ => None,
        }
    }
}

impl Transcode {
    /// The conversion as contracts see it.
    pub closed spec fn view(&self) -> TranscodeView {
        TranscodeView {
            metadata: self.metadata@,
            transcoder: self.transcoder,
            step: self.step,
        }
    }

    /// The path of the input.
    pub closed spec fn input_path(&self) -> Seq<char> {
        self.input@
    }

    /// The path of the output.
    pub closed spec fn output_path(&self) -> Seq<char> {
        self.output@
    }

    /// The metadata to set, once the header is to be written.
    pub closed spec fn metadata_pairs(&self) -> Seq<(String, String)> {
        self.pairs@
    }

    /// The path of the input.
    pub fn input(&self) -> (res: &str)
        ensures
            res@ == self.input_path(),
    {
        self.input.as_str()
    }

    /// The path of the output.
    pub fn output(&self) -> (res: &str)
        ensures
            res@ == self.output_path(),
    {
        self.output.as_str()
    }

    /// The metadata to set, in order.
    pub fn pairs(&self) -> (res: &Vec<(String, String)>)
        ensures
            res@ == self.metadata_pairs(),
    {
        &self.pairs
    }

    /// What is done next.
    pub fn step(&self) -> (res: TranscodeStep)
        ensures
            res == self@.step,
    {
        self.step
    }

    /// Takes in what has come of the step, and returns the next one.
    pub fn advance(&mut self, event: TranscodeEvent) -> (res: Result<TranscodeStep, TranscodeError>)
        requires
            old(self)@.step.answered_by(event),
        ensures
            final(self)@ == old(self)@.after(event),
            final(self).input_path() == old(self).input_path(),
            final(self).output_path() == old(self).output_path(),
            match old(self)@.error_of(event) {
                Some(text) => res matches Err(err) && err.text() == text,
                None => res == Ok::<TranscodeStep, TranscodeError>(final(self)@.step),
            },
            final(self)@.step is WriteHeader ==> are_entries(
                final(self)@.metadata,
                final(self).metadata_pairs(),
            ),
            !(final(self)@.step is WriteHeader) ==> final(self).metadata_pairs() == old(
                self,
            ).metadata_pairs(),
    {
        match event {
            TranscodeEvent::Done => {
                self.step = match self.step {
                    TranscodeStep::OpenInput => TranscodeStep::OpenOutput,
                    TranscodeStep::OpenOutput => TranscodeStep::Setup,
                    TranscodeStep::WriteHeader => TranscodeStep::ReadPacket,
                    TranscodeStep::SendPacket { .. } => TranscodeStep::ReceiveFrame(Stage::Packets),
                    TranscodeStep::AddFrame(stage) => TranscodeStep::PullFrame(stage),
                    TranscodeStep::SendFrame(stage) => TranscodeStep::ReceivePacket(stage),
                    TranscodeStep::WritePacket { stage, .. } => TranscodeStep::ReceivePacket(stage),
                    TranscodeStep::SendDecoderEof => TranscodeStep::ReceiveFrame(Stage::DecoderEof),
                    TranscodeStep::FlushFilter => TranscodeStep::PullFrame(Stage::FilterEof),
                    TranscodeStep::SendEncoderEof => TranscodeStep::ReceivePacket(
                        Stage::EncoderEof,
                    ),
                    _ => TranscodeStep::Done,
                };
            },
            TranscodeEvent::Failed(text) => {
                self.step = TranscodeStep::Failed;
                return Err(TranscodeError::FFMpeg(text));
            },
            TranscodeEvent::NoSink => {
                self.step = TranscodeStep::Failed;
                return Err(TranscodeError::NoSink);
            },
            TranscodeEvent::Configured { stream, in_time_base, out_time_base } => {
                self.transcoder = Transcoder { stream, in_time_base, out_time_base };
                match prepare_metadata(&self.metadata) {
                    Err(err) => {
                        self.step = TranscodeStep::Failed;
                        return Err(err);
                    },
                    Ok(pairs) => {
                        self.pairs = pairs;
                        self.step = TranscodeStep::WriteHeader;
                    },
                }
            },
            TranscodeEvent::Packet { stream, time_base } => {
                if stream == self.transcoder.stream {
                    self.step = TranscodeStep::SendPacket {
                        from: time_base,
                        to: self.transcoder.in_time_base,
                    };
                }
            },
            TranscodeEvent::BadPacket => {},
            TranscodeEvent::EndOfInput => {
                self.step = TranscodeStep::SendDecoderEof;
            },
            TranscodeEvent::Received => {
                self.step = match self.step {
                    TranscodeStep::ReceiveFrame(stage) => TranscodeStep::AddFrame(stage),
                    TranscodeStep::PullFrame(stage) => TranscodeStep::SendFrame(stage),
                    TranscodeStep::ReceivePacket(stage) => TranscodeStep::WritePacket {
                        stage,
                        stream: 0,
                        from: self.transcoder.in_time_base,
                        to: self.transcoder.out_time_base,
                    },
                    other => other,
                };
            },
            TranscodeEvent::Nothing => {
                self.step = match self.step {
                    TranscodeStep::ReceiveFrame(Stage::Packets) => TranscodeStep::ReadPacket,
                    TranscodeStep::ReceiveFrame(_) => TranscodeStep::FlushFilter,
                    TranscodeStep::PullFrame(Stage::FilterEof) => TranscodeStep::SendEncoderEof,
                    TranscodeStep::PullFrame(stage) => TranscodeStep::ReceiveFrame(stage),
                    TranscodeStep::ReceivePacket(Stage::EncoderEof) => TranscodeStep::WriteTrailer,
                    TranscodeStep::ReceivePacket(stage) => TranscodeStep::PullFrame(stage),
                    other => other,
                };
            },
        }
        Ok(self.step)
    }
}

/// Starts to convert the file `input` to the file `output`, with `metadata` set.
pub fn transcode(input: &str, metadata: &Vec<String>, output: &str) -> (res: Transcode)
    ensures
        res.input_path() == input@,
        res.output_path() == output@,
        res@.step == TranscodeStep::OpenInput,
        res@.metadata == metadata@,
{
    let mut entries: Vec<String> = Vec::new();
    let mut i: usize = 0;
    while i < metadata.len()
        invariant
            i <= metadata@.len(),
            entries@ == metadata@.take(i as int),
        decreases metadata@.len() - i,
    {
        entries.push(metadata[i].clone());
        i += 1;
        assert(entries@ =~= metadata@.take(i as int));
    }
    assert(metadata@.take(metadata@.len() as int) =~= metadata@);
    let none = TimeBase { num: 0, den: 1 };
    Transcode {
        input: input.to_owned(),
        output: output.to_owned(),
        metadata: entries,
        pairs: Vec::new(),
        transcoder: Transcoder { stream: 0, in_time_base: none, out_time_base: none },
        step: TranscodeStep::OpenInput,
    }
}

impl Stage {
    /// The place of a stage in the course of a conversion.
    pub open spec fn rank(self) -> int {
        match self {
            Stage::Packets => 4,
            Stage::DecoderEof => 6,
            Stage::FilterEof => 8,
            Stage::EncoderEof => 10,
        }
    }
}

impl TranscodeStep {
    /// The place of a step in the course of a conversion; those that repeat share one.
    pub open spec fn rank(self) -> int {
        match self {
            TranscodeStep::OpenInput => 0,
            TranscodeStep::OpenOutput => 1,
            TranscodeStep::Setup => 2,
            TranscodeStep::WriteHeader => 3,
            TranscodeStep::ReadPacket => 4,
            TranscodeStep::SendPacket { .. } => 4,
            TranscodeStep::ReceiveFrame(stage) => stage.rank(),
            TranscodeStep::AddFrame(stage) => stage.rank(),
            TranscodeStep::PullFrame(stage) => stage.rank(),
            TranscodeStep::SendFrame(stage) => stage.rank(),
            TranscodeStep::ReceivePacket(stage) => stage.rank(),
            TranscodeStep::WritePacket { stage, .. } => stage.rank(),
            TranscodeStep::SendDecoderEof => 5,
            TranscodeStep::FlushFilter => 7,
            TranscodeStep::SendEncoderEof => 9,
            TranscodeStep::WriteTrailer => 11,
            TranscodeStep::Done => 12,
            TranscodeStep::Failed => 13,
        }
    }

    /// The step can come up: a part is not used any more once the one after it has got
    /// its end of input.
    pub open spec fn wf(self) -> bool {
        match self {
            TranscodeStep::ReceiveFrame(stage) => stage is Packets || stage is DecoderEof,
            TranscodeStep::AddFrame(stage) => stage is Packets || stage is DecoderEof,
            TranscodeStep::PullFrame(stage) => !(stage is EncoderEof),
            TranscodeStep::SendFrame(stage) => !(stage is EncoderEof),
            _ => true,
        }
    }
}

/// A conversion takes its steps in order and leaves none out: it never goes back, and,
/// unless it fails, it goes on by one place at most. So the header is written before any
/// packet, each part gets its end of input after all that came before it, and the
/// trailer comes last.
pub proof fn law_transcode_order(at: TranscodeView, event: TranscodeEvent)
    requires
        at.step.wf(),
        at.step.answered_by(event),
    ensures
        at.after(event).step.wf(),
        at.step.rank() <= at.after(event).step.rank(),
        at.after(event).step is Failed || at.after(event).step.rank() <= at.step.rank() + 1,
        at.after(event).step is Failed <==> at.error_of(event) is Some,
{
}

/// Each event can come of the step at which it comes.
pub open spec fn transcode_run_valid(at: TranscodeView, events: Seq<TranscodeEvent>) -> bool
    decreases events.len(),
{
    events.len() > 0 ==> at.step.answered_by(events[0]) && transcode_run_valid(
        at.after(events[0]),
        events.drop_first(),
    )
}

/// A conversion after all of the events.
pub open spec fn transcode_run(at: TranscodeView, events: Seq<TranscodeEvent>) -> TranscodeView
    decreases events.len(),
{
    if events.len() == 0 {
        at
    } else {
        transcode_run(at.after(events[0]), events.drop_first())
    }
}

/// A conversion that gets to a place without failing has been at all places before it.
pub proof fn law_no_step_left_out(at: TranscodeView, events: Seq<TranscodeEvent>, place: int)
    requires
        at.step.wf(),
        transcode_run_valid(at, events),
        !(transcode_run(at, events).step is Failed),
        at.step.rank() <= place <= transcode_run(at, events).step.rank(),
    ensures
        exists|n: int|
            0 <= n <= events.len() && (#[trigger] transcode_run(at, events.take(n))).step.rank()
                == place,
    decreases events.len(),
{
    if place == at.step.rank() {
        assert(events.take(0).len() == 0);
        assert(transcode_run(at, events.take(0)).step.rank() == place);
    } else {
        assert(events.len() > 0);
        let next = at.after(events[0]);
        let rest = events.drop_first();
        assert(transcode_run_valid(next, rest));
        law_transcode_order(at, events[0]);
        if next.step is Failed {
            assert(rest.len() == 0);
        }
        law_no_step_left_out(next, rest, place);
        let n = choose|n: int|
            0 <= n <= rest.len() && (#[trigger] transcode_run(next, rest.take(n))).step.rank()
                == place;
        assert(events.take(n + 1).drop_first() =~= rest.take(n));
        assert(transcode_run(at, events.take(n + 1)).step.rank() == place);
    }
}

/// The parts of a conversion that frames and packets come out of.
pub enum Part {
    Decoder,
    Filter,
    Encoder,
}

/// Something has come out of the part.
pub open spec fn came_out(part: Part, step: TranscodeStep, event: TranscodeEvent) -> bool {
    event is Received && match part {
        Part::Decoder => step is ReceiveFrame,
        Part::Filter => step is PullFrame,
        Part::Encoder => step is ReceivePacket,
    }
}

/// What came out of the part is at the place where it is passed on.
pub open spec fn on_its_way(part: Part, step: TranscodeStep) -> bool {
    match part {
        Part::Decoder => step is AddFrame,
        Part::Filter => step is SendFrame,
        Part::Encoder => step is WritePacket,
    }
}

/// How many things come out of a part while the events happen.
pub open spec fn count_out(part: Part, at: TranscodeView, events: Seq<TranscodeEvent>) -> nat
    decreases events.len(),
{
    if events.len() == 0 {
        0
    } else {
        (if came_out(part, at.step, events[0]) { 1nat } else { 0nat }) + count_out(
            part,
            at.after(events[0]),
            events.drop_first(),
        )
    }
}

/// How many of them are passed on: a frame from the decoder to the filter, one from the
/// filter to the encoder, a packet from the encoder to the output.
pub open spec fn count_on(part: Part, at: TranscodeView, events: Seq<TranscodeEvent>) -> nat
    decreases events.len(),
{
    if events.len() == 0 {
        0
    } else {
        (if on_its_way(part, at.step) && events[0] is Done { 1nat } else { 0nat }) + count_on(
            part,
            at.after(events[0]),
            events.drop_first(),
        )
    }
}

/// Nothing gets lost or comes twice: what comes out of a part is passed on exactly once,
/// as long as the conversion does not fail.
pub proof fn law_nothing_lost(part: Part, at: TranscodeView, events: Seq<TranscodeEvent>)
    requires
        transcode_run_valid(at, events),
        !(transcode_run(at, events).step is Failed),
    ensures
        count_out(part, at, events) + (if on_its_way(part, at.step) { 1int } else { 0int })
            == count_on(part, at, events) + (if on_its_way(
            part,
            transcode_run(at, events).step,
        ) { 1int } else { 0int }),
    decreases events.len(),
{
    if events.len() > 0 {
        let next = at.after(events[0]);
        let rest = events.drop_first();
        assert(transcode_run_valid(next, rest));
        if next.step is Failed {
            assert(rest.len() == 0);
        }
        law_nothing_lost(part, next, rest);
    }
}

/// Before the output is complete, each part has been emptied: a part is left only when
/// nothing more came out of it.
pub proof fn law_left_when_empty(at: TranscodeView, event: TranscodeEvent)
    requires
        at.step.asks(),
        at.step.answered_by(event),
        !(event is Nothing),
    ensures
        event is Received ==> at.after(event).step == at.pass_on(),
        !(event is Received) ==> at.after(event).step is Failed,
{
}

/// Packets of other streams, and those that cannot be read, change nothing.
pub proof fn law_other_packets_ignored(at: TranscodeView, event: TranscodeEvent)
    requires
        at.step is ReadPacket,
        event is BadPacket || (event matches TranscodeEvent::Packet { stream, .. } && stream
            != at.transcoder.stream),
    ensures
        at.after(event) == at,
{
}

} // verus!
