//! The WAV to mu-law conversion: decoding the file, cutting the samples into blocks
//! for the resampler, and compressing what comes back.

use crate::text::decimal_string;
use vstd::prelude::*;

verus! {

/// What `hound` reports when it cannot read a file or a sample.
#[verifier::external_type_specification]
#[verifier::external_body]
pub struct ExHoundError(hound::Error);

/// `hound`'s streaming reader of a WAV file.
#[verifier::external_type_specification]
#[verifier::external_body]
#[verifier::reject_recursive_types(R)]
pub struct ExWavReader<R>(hound::WavReader<R>);

/// The samples that a reader has yet to hand out, in order; `None` stands for one
/// that cannot be read as a 16-bit integer.
pub uninterp spec fn wav_remaining(reader: hound::WavReader<&[u8]>) -> Seq<Option<i16>>;

/// The number of channels and the sample rate that a reader has found in the header.
pub uninterp spec fn wav_header(reader: hound::WavReader<&[u8]>) -> (u16, u32);

/// What `hound::WavReader::new` makes of the bytes of a file: the number of channels,
/// the sample rate and the samples, or `None` where it refuses them.
pub uninterp spec fn wav_file(bytes: Seq<u8>) -> Option<(u16, u32, Seq<Option<i16>>)>;

/// `hound::WavReader::new` on a byte slice. It reads the header only; the samples
/// are read later, from the same bytes. What it finds is a function of the bytes,
/// named `wav_file`.
#[verifier::external_body]
fn wav_open<'a>(bytes: &'a [u8]) -> (res: Result<hound::WavReader<&'a [u8]>, hound::Error>)
    ensures
        res is Ok <==> wav_file(bytes@) is Some,
        res matches Ok(reader) ==> wav_file(bytes@) == Some(
            (wav_header(reader).0, wav_header(reader).1, wav_remaining(reader)),
        ),
{
    hound::WavReader::new(bytes)
}

/// `hound::WavReader::spec`, of which only the number of channels and the sample rate
/// are kept.
#[verifier::external_body]
fn wav_spec(reader: &hound::WavReader<&[u8]>) -> (res: (u16, u32))
    ensures
        res == wav_header(*reader),
{
    let spec = reader.spec();
    (spec.channels, spec.sample_rate)
}

/// One step of the iterator that `hound::WavReader::samples` returns: the next sample
/// leaves the reader. Each iterator goes on where the one before it stopped.
#[verifier::external_body]
fn wav_next(reader: &mut hound::WavReader<&[u8]>) -> (res: Option<Result<i16, hound::Error>>)
    ensures
        wav_header(*final(reader)) == wav_header(*old(reader)),
        wav_remaining(*old(reader)).len() == 0 ==> res is None && wav_remaining(*final(reader))
            == wav_remaining(*old(reader)),
        wav_remaining(*old(reader)).len() > 0 ==> wav_remaining(*final(reader)) == wav_remaining(
            *old(reader),
        ).drop_first() && match wav_remaining(*old(reader))[0] {
            Some(sample) => res == Some(Ok::<i16, hound::Error>(sample)),
            None => res is Some && res->0 is Err,
        },
{
    reader.samples::<i16>().next()
}

/// The magnitude that mu-law codes for a 16-bit sample: its top 14 bits, biased by 33
/// and clipped to 13 bits.
pub open spec fn ulaw_magnitude(sample: int) -> int {
    let biased = (if sample < 0 { -sample - 1 } else { sample }) / 4 + 33;
    if biased > 8191 { 8191 } else { biased }
}

/// The segment of a magnitude and the width of a step in it: each segment is twice as
/// wide as the one before, and each has sixteen steps.
pub open spec fn ulaw_segment(magnitude: int) -> (int, int) {
    if magnitude < 64 {
        (1, 2)
    } else if magnitude < 128 {
        (2, 4)
    } else if magnitude < 256 {
        (3, 8)
    } else if magnitude < 512 {
        (4, 16)
    } else if magnitude < 1024 {
        (5, 32)
    } else if magnitude < 2048 {
        (6, 64)
    } else if magnitude < 4096 {
        (7, 128)
    } else {
        (8, 256)
    }
}

/// The mu-law byte of a 16-bit sample: the sign bit (set for samples that are not
/// negative), the segment and the step in it, both counted down.
pub open spec fn ulaw_byte(sample: int) -> int {
    let magnitude = ulaw_magnitude(sample);
    let (segment, width) = ulaw_segment(magnitude);
    (if sample >= 0 { 128int } else { 0int }) + 16 * (8 - segment) + (15 - magnitude / width % 16)
}

/// `codec_core::codecs::g711::ulaw_compress` is mu-law compression as ITU-T G.711
/// has it.
pub assume_specification[ codec_core::codecs::g711::ulaw_compress ](sample: i16) -> (byte: u8)
    ensures
        byte == ulaw_byte(sample as int),
;

/// Why a conversion to mu-law stops.
#[derive(Clone, Debug)]
pub enum ULawError {
    /// The named input is no WAV file.
    CannotOpen(String),
    /// The input has this number of channels, not one.
    NotMono(u16),
    /// A sample of the input is not a 16-bit integer, or is missing.
    BadSample,
    /// The resampler could not be made.
    CreateResampler,
    /// The resampler failed.
    Resample,
    /// The output did not take a byte.
    Write,
    /// The output could not be flushed.
    Flush,
}

impl ULawError {
    /// The text of an error.
    pub open spec fn text(&self) -> Seq<char> {
        match self {
            ULawError::CannotOpen(input) => "Cannot open input wav: "@ + input@,
            ULawError::NotMono(channels) => "Only mono WAV files are supported, found "@
                + crate::text::decimal(*channels as int) + " channels"@,
            ULawError::BadSample => "Cannot read sample"@,
            ULawError::CreateResampler => "Failed to create resampler"@,
            ULawError::Resample => "Resampling failed"@,
            ULawError::Write => "Failed to write ulaw data"@,
            ULawError::Flush => "Failed to flush ulaw data"@,
        }
    }

    /// The text of the error.
    pub fn message(&self) -> (res: String)
        ensures
            res@ == self.text(),
    {
        match self {
            ULawError::CannotOpen(input) => {
                let mut out = "Cannot open input wav: ".to_owned();
                out.append(input.as_str());
                out
            },
            ULawError::NotMono(channels) => {
                let mut out = "Only mono WAV files are supported, found ".to_owned();
                out.append(decimal_string(*channels as i64).as_str());
                out.append(" channels");
                out
            },
            ULawError::BadSample => "Cannot read sample".to_owned(),
            ULawError::CreateResampler => "Failed to create resampler".to_owned(),
            ULawError::Resample => "Resampling failed".to_owned(),
            ULawError::Write => "Failed to write ulaw data".to_owned(),
            ULawError::Flush => "Failed to flush ulaw data".to_owned(),
        }
    }
}

/// Compresses one sample to its mu-law byte.
pub fn linear_to_mulaw(pcm: i16) -> (byte: u8)
    ensures
        byte == ulaw_byte(pcm as int),
{
    codec_core::codecs::g711::ulaw_compress(pcm)
}

/// Where a mu-law byte stands among the levels, from the lowest to the highest.
pub open spec fn ulaw_level(byte: int) -> int {
    if byte >= 128 { 255 - byte } else { byte - 128 }
}

/// Compression keeps the order of 16-bit samples, and the levels of samples that are not
/// negative are not negative either.
pub proof fn law_mulaw_monotone(low: i16, high: i16)
    requires
        low <= high,
    ensures
        ulaw_level(ulaw_byte(low as int)) <= ulaw_level(ulaw_byte(high as int)),
        0 <= ulaw_byte(low as int) < 256,
        0 <= ulaw_level(ulaw_byte(low as int)) <==> 0 <= low,
{
    lemma_level_of_magnitude(low as int);
    lemma_level_of_magnitude(high as int);
    if 0 <= low {
        lemma_steps_monotone(ulaw_magnitude(low as int), ulaw_magnitude(high as int));
    } else if high < 0 {
        lemma_steps_monotone(ulaw_magnitude(high as int), ulaw_magnitude(low as int));
    }
}

/// The number of steps below a magnitude.
spec fn ulaw_steps(magnitude: int) -> int {
    let (segment, width) = ulaw_segment(magnitude);
    16 * (segment - 1) + (magnitude / width - 16)
}

/// The level of a sample is the number of steps below its magnitude, counted from zero
/// up or from minus one down.
proof fn lemma_level_of_magnitude(sample: int)
    requires
        -32768 <= sample <= 32767,
    ensures
        33 <= ulaw_magnitude(sample) <= 8191,
        0 <= ulaw_steps(ulaw_magnitude(sample)) < 128,
        0 <= ulaw_byte(sample) < 256,
        ulaw_level(ulaw_byte(sample)) == (if sample >= 0 {
            ulaw_steps(ulaw_magnitude(sample))
        } else {
            -1 - ulaw_steps(ulaw_magnitude(sample))
        }),
{
    lemma_sixteen_steps(ulaw_magnitude(sample));
}

/// A larger magnitude has no fewer steps below it.
proof fn lemma_steps_monotone(low: int, high: int)
    requires
        33 <= low <= high <= 8191,
    ensures
        ulaw_steps(low) <= ulaw_steps(high),
{
    lemma_sixteen_steps(low);
    lemma_sixteen_steps(high);
    if ulaw_segment(low) == ulaw_segment(high) {
        vstd::arithmetic::div_mod::lemma_div_is_ordered(low, high, ulaw_segment(low).1);
    }
}

/// Each segment has sixteen steps.
proof fn lemma_sixteen_steps(magnitude: int)
    requires
        33 <= magnitude <= 8191,
    ensures
        16 <= magnitude / ulaw_segment(magnitude).1 < 32,
{
}

/// The mu-law bytes of `pcm`, one for each sample.
pub open spec fn ulaw_bytes(pcm: Seq<i16>) -> Seq<u8> {
    pcm.map_values(|sample: i16| ulaw_byte(sample as int) as u8)
}

/// Compresses the first `wanted` samples of a resampled block.
pub fn encode_block(pcm: &Vec<i16>, wanted: usize) -> (bytes: Vec<u8>)
    requires
        wanted <= pcm@.len(),
    ensures
        bytes@ == ulaw_bytes(pcm@.take(wanted as int)),
{
    let mut bytes: Vec<u8> = Vec::new();
    let mut i: usize = 0;
    while i < wanted
        invariant
            i <= wanted <= pcm@.len(),
            bytes@ == ulaw_bytes(pcm@.take(i as int)),
        decreases wanted - i,
    {
        bytes.push(linear_to_mulaw(pcm[i]));
        i += 1;
        assert(bytes@ =~= ulaw_bytes(pcm@.take(i as int)));
    }
    bytes
}

/// The number of samples that the next block takes: `size`, or what is left.
pub open spec fn block_len(samples: Seq<Option<i16>>, size: nat) -> nat {
    if samples.len() < size { samples.len() } else { size }
}

/// All of these samples could be read.
pub open spec fn all_readable(samples: Seq<Option<i16>>) -> bool {
    forall|i: int| 0 <= i < samples.len() ==> #[trigger] samples[i] is Some
}

/// The values of samples that could be read.
pub open spec fn values(samples: Seq<Option<i16>>) -> Seq<i16> {
    samples.map_values(|sample: Option<i16>| sample->0)
}

/// `n` samples of silence.
pub open spec fn silence(n: nat) -> Seq<i16> {
    Seq::new(n, |i: int| 0i16)
}

/// The next samples of the file, `limit` of them or what is left.
fn next_samples(reader: &mut hound::WavReader<&[u8]>, limit: usize) -> (res: Vec<Option<i16>>)
    ensures
        ({
            let samples = wav_remaining(*old(reader));
            let taken = block_len(samples, limit as nat) as int;
            res@ == samples.take(taken) && wav_remaining(*final(reader)) == samples.skip(taken)
        }),
        wav_header(*final(reader)) == wav_header(*old(reader)),
{
    let ghost samples = wav_remaining(*reader);
    let mut res: Vec<Option<i16>> = Vec::new();
    assert(samples.take(0) =~= Seq::empty());
    assert(samples.skip(0) =~= samples);
    while res.len() < limit
        invariant
            samples == wav_remaining(*old(reader)),
            wav_header(*reader) == wav_header(*old(reader)),
            res@.len() <= limit,
            res@.len() <= samples.len(),
            res@ == samples.take(res@.len() as int),
            wav_remaining(*reader) == samples.skip(res@.len() as int),
        ensures
            res@.len() == block_len(samples, limit as nat),
        decreases limit - res@.len(),
    {
        let ghost n = res@.len() as int;
        let sample = match wav_next(reader) {
            None => {
                break;
            },
            Some(Ok(sample)) => Some(sample),
            Some(Err(_)) => None,
        };
        assert(samples.skip(n)[0] == samples[n]);
        res.push(sample);
        assert(samples.skip(n).drop_first() =~= samples.skip(n + 1));
        assert(samples.take(n).push(samples[n]) =~= samples.take(n + 1));
    }
    res
}

/// Puts samples into the front of `input_buf` and returns how many they are. Where there
/// are some, but fewer than `chunk_size`, silence fills up the rest. Samples that could
/// not all be read are refused.
pub fn load_block(
    samples: &Vec<Option<i16>>,
    input_buf: &mut Vec<i16>,
    chunk_size: usize,
) -> (res: Result<usize, ULawError>)
    requires
        samples@.len() <= chunk_size <= old(input_buf)@.len(),
    ensures
        all_readable(samples@) ==> res == Ok::<usize, ULawError>(samples@.len() as usize),
        all_readable(samples@) && samples@.len() > 0 ==> final(input_buf)@ == values(samples@)
            + silence((chunk_size - samples@.len()) as nat) + old(input_buf)@.skip(
            chunk_size as int,
        ),
        !all_readable(samples@) ==> res == Err::<usize, ULawError>(ULawError::BadSample),
        !all_readable(samples@) || samples@.len() == 0 ==> final(input_buf)@ == old(input_buf)@,
        final(input_buf)@.len() == old(input_buf)@.len(),
{
    let filled: usize = samples.len();
    let mut block: Vec<i16> = Vec::new();
    while block.len() < filled
        invariant
            filled == samples@.len(),
            block@.len() <= filled,
            all_readable(samples@.take(block@.len() as int)),
            block@ == values(samples@.take(block@.len() as int)),
        decreases filled - block@.len(),
    {
        let ghost n = block@.len() as int;
        match samples[block.len()] {
            None => {
                return Err(ULawError::BadSample);
            },
            Some(sample) => {
                block.push(sample);
            },
        }
        assert(samples@.take(n + 1) =~= samples@.take(n).push(samples@[n]));
        assert(block@ =~= values(samples@.take(n + 1)));
    }
    assert(samples@.take(filled as int) =~= samples@);
    if filled == 0 {
        return Ok(0);
    }
    let ghost before = input_buf@;
    let mut i: usize = 0;
    while i < chunk_size
        invariant
            filled == samples@.len(),
            block@ == values(samples@),
            filled <= chunk_size <= before.len(),
            i <= chunk_size,
            input_buf@.len() == before.len(),
            forall|j: int|
                0 <= j < i ==> #[trigger] input_buf@[j] == (if j < filled {
                    block@[j]
                } else {
                    0i16
                }),
            forall|j: int| i <= j < before.len() ==> #[trigger] input_buf@[j] == before[j],
        decreases chunk_size - i,
    {
        input_buf.set(i, if i < filled { block[i] } else { 0 });
        i += 1;
    }
    assert(input_buf@ =~= values(samples@) + silence((chunk_size - filled) as nat) + before.skip(
        chunk_size as int,
    ));
    Ok(filled)
}

/// Reads the next `chunk_size` samples of the file into the front of `input_buf` and
/// returns how many there were, as `load_block` does.
pub fn fill_buffer(
    reader: &mut hound::WavReader<&[u8]>,
    input_buf: &mut Vec<i16>,
    chunk_size: usize,
) -> (res: Result<usize, ULawError>)
    requires
        chunk_size <= old(input_buf)@.len(),
    ensures
        ({
            let samples = wav_remaining(*old(reader));
            let taken = block_len(samples, chunk_size as nat);
            let block = samples.take(taken as int);
            &&& wav_remaining(*final(reader)) == samples.skip(taken as int)
            &&& all_readable(block) ==> res == Ok::<usize, ULawError>(taken as usize)
            &&& all_readable(block) && taken > 0 ==> final(input_buf)@ == values(block) + silence(
                (chunk_size - taken) as nat,
            ) + old(input_buf)@.skip(chunk_size as int)
            &&& !all_readable(block) ==> res == Err::<usize, ULawError>(ULawError::BadSample)
            &&& !all_readable(block) || taken == 0 ==> final(input_buf)@ == old(input_buf)@
        }),
        final(input_buf)@.len() == old(input_buf)@.len(),
        wav_header(*final(reader)) == wav_header(*old(reader)),
{
    let samples = next_samples(reader, chunk_size);
    load_block(&samples, input_buf, chunk_size)
}

/// The conversion of WAV files to 8 kHz mu-law.
#[derive(Clone, Debug)]
pub struct ULaw;

/// The rate of the output, in samples per second.
pub const OUTPUT_RATE: u32 = 8000;

/// The number of frames that the resampler is asked to take at a time.
pub const RESAMPLER_FRAMES: usize = 1024;

/// What a running conversion waits for.
#[derive(Clone, Copy, Debug, PartialEq, Eq, Structural)]
pub enum ULawStep {
    /// The resampler, from the input's rate to `OUTPUT_RATE`.
    CreateResampler,
    /// The resampled samples of the current block.
    Resample,
    /// The output to take the bytes of the current block.
    Write,
    /// The output to be flushed.
    Flush,
    /// Nothing: all of the input is converted.
    Done,
    /// Nothing: the conversion has stopped with an error.
    Failed,
}

/// What has come of the thing that a conversion waited for.
pub enum ULawEvent {
    /// The resampler is there, and takes this many samples at a time.
    ResamplerReady(usize),
    /// The resampler has answered with `pcm`, of which the first `wanted` samples are
    /// those of the current block.
    Resampled { pcm: Vec<i16>, wanted: usize },
    /// The output has taken the bytes.
    Written,
    /// The output has been flushed.
    Flushed,
    /// It failed.
    Failed,
}

/// What a conversion asks for next.
pub enum ULawAction {
    /// Make a resampler between these rates, for this many channels, that takes about
    /// this many frames at a time.
    CreateResampler { input_rate: u32, output_rate: u32, frames: usize, channels: usize },
    /// Resample the block, whose first samples, as many as given here, are from the file.
    Resample(usize),
    /// Write these bytes to the output.
    Write(Vec<u8>),
    /// Flush the output.
    Flush,
    /// Nothing more: the conversion is complete.
    Finish,
}

/// A running conversion, as contracts see it.
pub struct ULawView {
    /// The samples that have not been read yet.
    pub samples: Seq<Option<i16>>,
    /// The size of a block.
    pub chunk_size: nat,
    /// What the conversion waits for.
    pub step: ULawStep,
}

/// A running conversion of one WAV file.
pub struct ULawStream<'a> {
    reader: hound::WavReader<&'a [u8]>,
    block: Vec<i16>,
    step: ULawStep,
}

/// `event` answers what a conversion at `step` waits for.
pub open spec fn ulaw_answers(step: ULawStep, event: ULawEvent) -> bool {
    match event {
        ULawEvent::ResamplerReady(_) => step == ULawStep::CreateResampler,
        ULawEvent::Resampled { pcm, wanted } => step == ULawStep::Resample && wanted
            <= pcm@.len(),
        ULawEvent::Written => step == ULawStep::Write,
        ULawEvent::Flushed => step == ULawStep::Flush,
        ULawEvent::Failed => step != ULawStep::Done && step != ULawStep::Failed,
    }
}

/// The error of a conversion at `step` that is told of a failure.
pub open spec fn ulaw_failure(step: ULawStep) -> ULawError {
    match step {
        ULawStep::CreateResampler => ULawError::CreateResampler,
        ULawStep::Resample => ULawError::Resample,
        ULawStep::Write => ULawError::Write,
        _ => ULawError::Flush,
    }
}

impl ULawView {
    /// The samples of the next block.
    pub open spec fn next_block(self) -> Seq<Option<i16>> {
        self.samples.take(block_len(self.samples, self.chunk_size) as int)
    }

    /// The conversion once it has read its next block: it waits for the block to be
    /// resampled, or, where no sample was left, for the flush.
    pub open spec fn after_read(self) -> ULawView {
        let taken = block_len(self.samples, self.chunk_size);
        if !all_readable(self.next_block()) {
            ULawView {
                samples: self.samples.skip(taken as int),
                step: ULawStep::Failed,
                ..self
            }
        } else if taken == 0 {
            ULawView { step: ULawStep::Flush, ..self }
        } else {
            ULawView {
                samples: self.samples.skip(taken as int),
                step: ULawStep::Resample,
                ..self
            }
        }
    }

    /// The conversion after `event`.
    pub open spec fn after(self, event: ULawEvent) -> ULawView {
        match event {
            ULawEvent::ResamplerReady(chunk_size) => (ULawView {
                chunk_size: chunk_size as nat,
                ..self
            }).after_read(),
            ULawEvent::Resampled { .. } => ULawView { step: ULawStep::Write, ..self },
            ULawEvent::Written => self.after_read(),
            ULawEvent::Flushed => ULawView { step: ULawStep::Done, ..self },
            ULawEvent::Failed => ULawView { step: ULawStep::Failed, ..self },
        }
    }
}

/// What a conversion of a file with this header asks for first. Only a file with one
/// channel is taken.
pub fn check_header(channels: u16, sample_rate: u32) -> (res: Result<ULawAction, ULawError>)
    ensures
        channels == 1 ==> res == Ok::<ULawAction, ULawError>(
            ULawAction::CreateResampler {
                input_rate: sample_rate,
                output_rate: 8000,
                frames: 1024,
                channels: 1,
            },
        ),
        channels != 1 ==> res == Err::<ULawAction, ULawError>(ULawError::NotMono(channels)),
{
    if channels != 1 {
        return Err(ULawError::NotMono(channels));
    }
    Ok(
        ULawAction::CreateResampler {
            input_rate: sample_rate,
            output_rate: OUTPUT_RATE,
            frames: RESAMPLER_FRAMES,
            channels: 1,
        },
    )
}

/// What a conversion asks for when its next block holds this many samples of the file.
pub fn block_action(filled: usize) -> (res: ULawAction)
    ensures
        res == (if filled == 0 { ULawAction::Flush } else { ULawAction::Resample(filled) }),
{
    if filled == 0 {
        ULawAction::Flush
    } else {
        ULawAction::Resample(filled)
    }
}

impl ULaw {
    /// The conversion, ready for use.
    pub fn new() -> (res: Result<ULaw, ULawError>)
        ensures
            res == Ok::<ULaw, ULawError>(ULaw),
    {
        Ok(ULaw)
    }

    /// Starts to convert the WAV file with the content `wav`; `input` names it in errors.
    /// Only a file with one channel is taken.
    pub fn stream_transcode<'a>(&self, input: &str, wav: &'a [u8]) -> (res: Result<
        (ULawStream<'a>, ULawAction),
        ULawError,
    >)
        ensures
            match wav_file(wav@) {
                None => res matches Err(ULawError::CannotOpen(name)) && name@ == input@,
                Some((channels, rate, samples)) => if channels == 1 {
                    res matches Ok((stream, action)) && stream@ == (ULawView {
                        samples,
                        chunk_size: 0,
                        step: ULawStep::CreateResampler,
                    }) && action == (ULawAction::CreateResampler {
                        input_rate: rate,
                        output_rate: 8000,
                        frames: 1024,
                        channels: 1,
                    })
                } else {
                    res == Err::<(ULawStream<'a>, ULawAction), ULawError>(
                        ULawError::NotMono(channels),
                    )
                },
            },
    {
        match wav_open(wav) {
            Err(_) => Err(ULawError::CannotOpen(input.to_owned())),
            Ok(reader) => {
                let (channels, sample_rate) = wav_spec(&reader);
                match check_header(channels, sample_rate) {
                    Err(err) => Err(err),
                    Ok(action) => {
                        let step = ULawStep::CreateResampler;
                        Ok((ULawStream { reader, block: Vec::new(), step }, action))
                    },
                }
            },
        }
    }
}

impl<'a> ULawStream<'a> {
    /// The conversion as contracts see it.
    pub closed spec fn view(&self) -> ULawView {
        ULawView {
            samples: wav_remaining(self.reader),
            chunk_size: self.block@.len(),
            step: self.step,
        }
    }

    /// The block to be resampled.
    pub closed spec fn current_block(&self) -> Seq<i16> {
        self.block@
    }

    /// What the conversion waits for.
    pub fn step(&self) -> (res: ULawStep)
        ensures
            res == self@.step,
    {
        self.step
    }

    /// The block to be resampled.
    pub fn block(&self) -> (res: &Vec<i16>)
        ensures
            res@ == self.current_block(),
    {
        &self.block
    }

    /// Reads the next block.
    fn read_block(&mut self) -> (res: Result<ULawAction, ULawError>)
        ensures
            final(self)@ == old(self)@.after_read(),
            read_result(old(self)@, res),
            res is Ok && res->Ok_0 is Resample ==> final(self).current_block() == padded_block(
                old(self)@,
            ),
    {
        let chunk_size: usize = self.block.len();
        let ghost samples = wav_remaining(self.reader);
        match fill_buffer(&mut self.reader, &mut self.block, chunk_size) {
            Err(error) => {
                self.step = ULawStep::Failed;
                Err(error)
            },
            Ok(filled) => {
                assert(samples.skip(0) =~= samples);
                self.step = if filled == 0 { ULawStep::Flush } else { ULawStep::Resample };
                Ok(block_action(filled))
            },
        }
    }

    /// Takes in what has come of the thing that the conversion waited for, and says
    /// what to do next.
    pub fn advance(&mut self, event: ULawEvent) -> (res: Result<ULawAction, ULawError>)
        requires
            ulaw_answers(old(self)@.step, event),
        ensures
            final(self)@ == old(self)@.after(event),
            match event {
                ULawEvent::ResamplerReady(chunk_size) => read_result(
                    (ULawView { chunk_size: chunk_size as nat, ..old(self)@ }),
                    res,
                ),
                ULawEvent::Resampled { pcm, wanted } => res matches Ok(ULawAction::Write(bytes))
                    && bytes@ == ulaw_bytes(pcm@.take(wanted as int)),
                ULawEvent::Written => read_result(old(self)@, res),
                ULawEvent::Flushed => res matches Ok(ULawAction::Finish),
                ULawEvent::Failed => res == Err::<ULawAction, ULawError>(
                    ulaw_failure(old(self)@.step),
                ),
            },
            final(self)@.step is Resample ==> final(self).current_block() == padded_block(
                (ULawView { chunk_size: final(self)@.chunk_size, ..old(self)@ }),
            ),
            !(event is ResamplerReady || event is Written) ==> final(self).current_block() == old(
                self,
            ).current_block(),
    {
        match event {
            ULawEvent::ResamplerReady(chunk_size) => {
                self.block = vec![0i16; chunk_size];
                self.read_block()
            },
            ULawEvent::Resampled { pcm, wanted } => {
                self.step = ULawStep::Write;
                Ok(ULawAction::Write(encode_block(&pcm, wanted)))
            },
            ULawEvent::Written => self.read_block(),
            ULawEvent::Flushed => {
                self.step = ULawStep::Done;
                Ok(ULawAction::Finish)
            },
            ULawEvent::Failed => {
                let error = match self.step {
                    ULawStep::CreateResampler => ULawError::CreateResampler,
                    ULawStep::Resample => ULawError::Resample,
                    ULawStep::Write => ULawError::Write,
                    _ => ULawError::Flush,
                };
                self.step = ULawStep::Failed;
                Err(error)
            },
        }
    }
}

/// What is asked for, or reported, when the conversion `at` reads its next block.
pub open spec fn read_result(at: ULawView, res: Result<ULawAction, ULawError>) -> bool {
    if !all_readable(at.next_block()) {
        res == Err::<ULawAction, ULawError>(ULawError::BadSample)
    } else if at.next_block().len() == 0 {
        res == Ok::<ULawAction, ULawError>(ULawAction::Flush)
    } else {
        res matches Ok(ULawAction::Resample(filled)) && filled == at.next_block().len()
    }
}

/// The next block of the conversion `at`, filled up with silence.
pub open spec fn padded_block(at: ULawView) -> Seq<i16> {
    values(at.next_block()) + silence((at.chunk_size - at.next_block().len()) as nat)
}

/// Each event answers what the conversion waits for when it comes.
pub open spec fn ulaw_run_valid(at: ULawView, events: Seq<ULawEvent>) -> bool
    decreases events.len(),
{
    events.len() > 0 ==> ulaw_answers(at.step, events[0]) && ulaw_run_valid(
        at.after(events[0]),
        events.drop_first(),
    )
}

/// The conversion after all of the events.
pub open spec fn ulaw_run(at: ULawView, events: Seq<ULawEvent>) -> ULawView
    decreases events.len(),
{
    if events.len() == 0 {
        at
    } else {
        ulaw_run(at.after(events[0]), events.drop_first())
    }
}

/// The samples of the file that `event` makes the conversion hand to the resampler.
pub open spec fn handed_by(at: ULawView, event: ULawEvent) -> Seq<i16> {
    match event {
        ULawEvent::ResamplerReady(chunk_size) => values(
            (ULawView { chunk_size: chunk_size as nat, ..at }).next_block(),
        ),
        ULawEvent::Written => values(at.next_block()),
        _ => Seq::empty(),
    }
}

/// The samples of the file that the events make the conversion hand to the resampler,
/// in order.
pub open spec fn ulaw_handed(at: ULawView, events: Seq<ULawEvent>) -> Seq<i16>
    decreases events.len(),
{
    if events.len() == 0 {
        Seq::empty()
    } else {
        handed_by(at, events[0]) + ulaw_handed(at.after(events[0]), events.drop_first())
    }
}

/// A conversion that only waits for the flush, or is done, has read all samples.
pub open spec fn ulaw_complete(at: ULawView) -> bool {
    (at.step is Flush || at.step is Done) && at.chunk_size > 0 ==> at.samples.len() == 0
}

/// Every sample of the file goes to the resampler exactly once and in order: what has
/// been handed over, followed by what is left, is what there was. A conversion that is
/// done has left nothing, and all of its samples could be read.
pub proof fn law_every_sample_once(at: ULawView, events: Seq<ULawEvent>)
    requires
        ulaw_run_valid(at, events),
        ulaw_complete(at),
        !(ulaw_run(at, events).step is Failed),
    ensures
        ulaw_handed(at, events) + values(ulaw_run(at, events).samples) == values(at.samples),
        ulaw_complete(ulaw_run(at, events)),
        ulaw_run(at, events).step is Done && ulaw_run(at, events).chunk_size > 0 ==> {
            &&& ulaw_handed(at, events) == values(at.samples)
            &&& all_readable(at.samples)
        },
        all_readable(ulaw_run(at, events).samples) ==> all_readable(at.samples),
    decreases events.len(),
{
    if events.len() == 0 {
        assert(Seq::<i16>::empty() + values(at.samples) =~= values(at.samples));
    } else {
        let event = events[0];
        let next = at.after(event);
        let rest = events.drop_first();
        assert(ulaw_run_valid(next, rest));
        assert(!(next.step is Failed));
        assert(ulaw_complete(next));
        law_every_sample_once(next, rest);
        let sized = match event {
            ULawEvent::ResamplerReady(chunk_size) => ULawView { chunk_size: chunk_size as nat, ..at },
            _ => at,
        };
        let taken = block_len(at.samples, sized.chunk_size) as int;
        if event is ResamplerReady || event is Written {
            assert(next.samples =~= at.samples.skip(taken));
            assert(values(at.samples.take(taken)) + values(at.samples.skip(taken)) =~= values(
                at.samples,
            ));
            assert forall|i: int| all_readable(next.samples) && 0 <= i < at.samples.len() implies
                #[trigger] at.samples[i] is Some by {
                if i < taken {
                    assert(at.samples.take(taken)[i] == at.samples[i]);
                } else {
                    assert(next.samples[i - taken] == at.samples[i]);
                }
            }
        }
        let tail = ulaw_handed(next, rest);
        let end = values(ulaw_run(next, rest).samples);
        assert(handed_by(at, event) + tail + end =~= handed_by(at, event) + (tail + end));
        assert(handed_by(at, event) + values(next.samples) =~= values(at.samples));
        if ulaw_run(at, events).samples.len() == 0 {
            assert(end =~= Seq::empty());
            assert(ulaw_handed(at, events) + end =~= ulaw_handed(at, events));
        }
    }
}

/// Only the last block can be short of samples, and each block takes samples away, so
/// that a conversion ends.
pub proof fn law_short_block_is_last(at: ULawView)
    requires
        at.chunk_size > 0,
        at.after_read().step is Resample,
    ensures
        at.after_read().samples.len() < at.samples.len(),
        at.next_block().len() < at.chunk_size ==> at.after_read().samples.len() == 0,
        at.after_read().samples.len() > 0 ==> padded_block(at) == values(at.next_block()),
{
    if at.after_read().samples.len() > 0 {
        assert(padded_block(at) =~= values(at.next_block()));
    }
}

/// The bytes that the events make the conversion write, in order.
pub open spec fn ulaw_written(events: Seq<ULawEvent>) -> Seq<u8>
    decreases events.len(),
{
    if events.len() == 0 {
        Seq::empty()
    } else {
        written_by(events[0]) + ulaw_written(events.drop_first())
    }
}

/// The bytes that `event` makes the conversion write.
pub open spec fn written_by(event: ULawEvent) -> Seq<u8> {
    match event {
        ULawEvent::Resampled { pcm, wanted } => ulaw_bytes(pcm@.take(wanted as int)),
        _ => Seq::empty(),
    }
}

/// The number of resampled samples that the events want.
pub open spec fn ulaw_wanted(events: Seq<ULawEvent>) -> nat
    decreases events.len(),
{
    if events.len() == 0 {
        0
    } else {
        let later = ulaw_wanted(events.drop_first());
        match events[0] {
            ULawEvent::Resampled { wanted, .. } => wanted as nat + later,
            _ => later,
        }
    }
}

/// The number of blocks that the events make the conversion hand to the resampler.
pub open spec fn ulaw_blocks(at: ULawView, events: Seq<ULawEvent>) -> nat
    decreases events.len(),
{
    if events.len() == 0 {
        0
    } else {
        let next = at.after(events[0]);
        let later = ulaw_blocks(next, events.drop_first());
        if next.step is Resample { later + 1 } else { later }
    }
}

/// The conversion writes one byte for each sample that is wanted, and none for a file
/// without samples.
pub proof fn law_byte_per_wanted_sample(at: ULawView, events: Seq<ULawEvent>)
    requires
        ulaw_run_valid(at, events),
    ensures
        ulaw_written(events).len() == ulaw_wanted(events),
        at.samples.len() == 0 && !(at.step is Resample) ==> ulaw_written(events).len() == 0,
    decreases events.len(),
{
    if events.len() > 0 {
        law_byte_per_wanted_sample(at.after(events[0]), events.drop_first());
    }
}

/// Where the event at `i` makes the conversion write, the next tells that the output has
/// taken the bytes, and is not the last.
pub open spec fn is_taken(events: Seq<ULawEvent>, i: int) -> bool {
    events[i] is Resampled ==> i + 2 < events.len() && events[i + 1] is Written
}

/// A conversion that is done was flushed exactly once, at the end, and all that it wrote
/// had been taken by the output before.
pub proof fn law_flushed_once_and_last(at: ULawView, events: Seq<ULawEvent>)
    requires
        ulaw_run_valid(at, events),
        !(at.step is Done),
        ulaw_run(at, events).step is Done,
    ensures
        events.len() > 0,
        events.last() is Flushed,
        forall|i: int| 0 <= i < events.len() - 1 ==> !(#[trigger] events[i] is Flushed),
        forall|i: int| 0 <= i < events.len() ==> #[trigger] is_taken(events, i),
        at.step is Flush ==> events.len() == 1,
    decreases events.len(),
{
    if events.len() > 0 {
        let next = at.after(events[0]);
        let rest = events.drop_first();
        assert(ulaw_run_valid(next, rest));
        if next.step is Done {
            assert(rest.len() == 0);
        } else {
            law_flushed_once_and_last(next, rest);
            assert(rest.last() == events.last());
            assert forall|i: int| 0 <= i < events.len() - 1 implies !(#[trigger] events[i]
                is Flushed) by {
                if i > 0 {
                    assert(events[i] == rest[i - 1]);
                }
            }
            assert forall|i: int| 0 <= i < events.len() implies #[trigger] is_taken(events, i) by {
                if i > 0 {
                    assert(is_taken(rest, i - 1));
                } else if events[0] is Resampled {
                    assert(ulaw_answers(next.step, rest[0]));
                    let later = rest.drop_first();
                    assert(ulaw_run(next, rest) == ulaw_run(next.after(rest[0]), later));
                    lemma_not_failed(next.after(rest[0]), later);
                    assert(rest[0] == events[1]);
                }
            }
        }
    }
}

/// A conversion that is done has handed over as many blocks as there were samples,
/// divided by the size of a block and rounded up.
pub proof fn law_block_count(at: ULawView, chunk_size: usize, events: Seq<ULawEvent>)
    requires
        at.step is CreateResampler,
        chunk_size > 0,
        events.len() > 0,
        events[0] == ULawEvent::ResamplerReady(chunk_size),
        ulaw_run_valid(at, events),
        ulaw_run(at, events).step is Done,
    ensures
        ulaw_blocks(at, events) == (at.samples.len() + chunk_size - 1) / chunk_size as int,
{
    let sized = ULawView { chunk_size: chunk_size as nat, ..at };
    let next = at.after(events[0]);
    let rest = events.drop_first();
    assert(ulaw_run_valid(next, rest));
    lemma_not_failed(next, rest);
    lemma_blocks_left(next, rest);
    lemma_blocks_of_read(sized);
}

/// A conversion that is done had not failed before.
proof fn lemma_not_failed(at: ULawView, events: Seq<ULawEvent>)
    requires
        ulaw_run_valid(at, events),
        ulaw_run(at, events).step is Done,
    ensures
        !(at.step is Failed),
{
    if events.len() > 0 {
        assert(ulaw_answers(at.step, events[0]));
    }
}

/// Reading a block takes away what one block takes.
proof fn lemma_blocks_of_read(at: ULawView)
    requires
        at.chunk_size > 0,
        !(at.after_read().step is Failed),
    ensures
        crate::pieces::pieces_needed(at.samples.len(), at.chunk_size)
            == crate::pieces::pieces_needed(at.after_read().samples.len(), at.chunk_size) + (
        if at.after_read().step is Resample { 1int } else { 0int }),
        at.after_read().step is Flush ==> at.after_read().samples.len() == 0,
{
    let size = at.chunk_size as int;
    let left = at.samples.len() as int;
    if left >= size {
        vstd::arithmetic::div_mod::lemma_fundamental_div_mod(left - 1, size);
        let q = (left - 1) / size;
        let r = (left - 1) % size;
        assert(left + size - 1 == (q + 1) * size + r) by (nonlinear_arith)
            requires
                left - 1 == size * q + r,
        ;
        vstd::arithmetic::div_mod::lemma_fundamental_div_mod_converse(
            left + size - 1,
            size,
            q + 1,
            r,
        );
    } else {
        vstd::arithmetic::div_mod::lemma_fundamental_div_mod_converse(
            size - 1,
            size,
            0,
            size - 1,
        );
        if left > 0 {
            vstd::arithmetic::div_mod::lemma_fundamental_div_mod_converse(
                left + size - 1,
                size,
                1,
                left - 1,
            );
        }
    }
}

/// From any point on, a conversion that will be done hands over as many blocks as the
/// samples that are left make.
proof fn lemma_blocks_left(at: ULawView, events: Seq<ULawEvent>)
    requires
        !(at.step is CreateResampler),
        at.chunk_size > 0,
        ulaw_complete(at),
        ulaw_run_valid(at, events),
        ulaw_run(at, events).step is Done,
    ensures
        ulaw_blocks(at, events) == crate::pieces::pieces_needed(at.samples.len(), at.chunk_size),
    decreases events.len(),
{
    if events.len() == 0 {
        let size = at.chunk_size as int;
        vstd::arithmetic::div_mod::lemma_fundamental_div_mod_converse(
            size - 1,
            size,
            0,
            size - 1,
        );
    } else {
        let next = at.after(events[0]);
        let rest = events.drop_first();
        assert(ulaw_run_valid(next, rest));
        lemma_not_failed(next, rest);
        lemma_blocks_left(next, rest);
        if events[0] is Written {
            lemma_blocks_of_read(at);
        }
    }
}

/// The number of samples of the file in the current block after `event`, where there
/// were `filled` before.
pub open spec fn filled_after(at: ULawView, filled: nat, event: ULawEvent) -> nat {
    if event is ResamplerReady || event is Written {
        handed_by(at, event).len()
    } else {
        filled
    }
}

/// A block of `chunk_size` samples at `rate`, of which `filled` are from the file, is
/// resampled to `resampled` samples that last as long, and of those are `wanted` enough
/// for what is from the file, and at most one more than it takes.
pub open spec fn block_fits(
    chunk_size: nat,
    filled: nat,
    resampled: nat,
    wanted: nat,
    rate: nat,
) -> bool {
    &&& resampled * rate == chunk_size * OUTPUT_RATE
    &&& filled * OUTPUT_RATE <= wanted * rate
    &&& wanted <= crate::pieces::pieces_needed(filled * OUTPUT_RATE as nat, rate) + 1
}

/// All resampled blocks fit; the current one has `filled` samples of the file.
pub open spec fn blocks_fit(
    at: ULawView,
    filled: nat,
    events: Seq<ULawEvent>,
    rate: nat,
) -> bool
    decreases events.len(),
{
    events.len() > 0 ==> {
        &&& events[0] matches ULawEvent::Resampled { pcm, wanted } ==> block_fits(
            at.chunk_size,
            filled,
            pcm@.len(),
            wanted as nat,
            rate,
        )
        &&& blocks_fit(
            at.after(events[0]),
            filled_after(at, filled, events[0]),
            events.drop_first(),
            rate,
        )
    }
}

/// A conversion that is done, and whose blocks all fit, has written bytes for at least
/// as long as the file lasts at `rate`, and at most one more than that takes; exactly
/// as many where the file is made of full blocks.
pub proof fn law_output_length(
    at: ULawView,
    chunk_size: usize,
    events: Seq<ULawEvent>,
    rate: nat,
)
    requires
        at.step is CreateResampler,
        chunk_size > 0,
        events.len() > 0,
        events[0] == ULawEvent::ResamplerReady(chunk_size),
        ulaw_run_valid(at, events),
        ulaw_run(at, events).step is Done,
        rate > 0,
        blocks_fit(at, 0, events, rate),
    ensures
        at.samples.len() * OUTPUT_RATE <= ulaw_written(events).len() * rate,
        ulaw_written(events).len() <= crate::pieces::pieces_needed(
            at.samples.len() * OUTPUT_RATE as nat,
            rate,
        ) + 1,
        at.samples.len() % chunk_size as nat == 0 ==> ulaw_written(events).len() * rate
            == at.samples.len() * OUTPUT_RATE,
{
    let next = at.after(events[0]);
    let rest = events.drop_first();
    let filled = filled_after(at, 0, events[0]);
    assert(ulaw_run_valid(next, rest));
    lemma_not_failed(next, rest);
    law_byte_per_wanted_sample(at, events);
    lemma_output_left(next, filled, rest, rate);
}

/// From any point on, what is written lasts as long as the samples that are left, those
/// of a block that waits to be resampled among them.
proof fn lemma_output_left(at: ULawView, filled: nat, events: Seq<ULawEvent>, rate: nat)
    requires
        !(at.step is CreateResampler),
        at.chunk_size > 0,
        ulaw_complete(at),
        at.step is Resample ==> 0 < filled <= at.chunk_size && (filled < at.chunk_size
            ==> at.samples.len() == 0),
        ulaw_run_valid(at, events),
        ulaw_run(at, events).step is Done,
        rate > 0,
        blocks_fit(at, filled, events, rate),
    ensures
        ({
            let left = at.samples.len() + if at.step is Resample { filled } else { 0 };
            let wanted = ulaw_wanted(events);
            &&& left * OUTPUT_RATE <= wanted * rate
            &&& wanted <= crate::pieces::pieces_needed(left * OUTPUT_RATE as nat, rate) + 1
            &&& left % at.chunk_size == 0 ==> wanted * rate == left * OUTPUT_RATE
        }),
    decreases events.len(),
{
    let width = rate as int;
    if events.len() == 0 {
        lemma_none_needed(rate);
        assert(0 * width == 0) by (nonlinear_arith);
    } else {
        let event = events[0];
        let next = at.after(event);
        let rest = events.drop_first();
        assert(ulaw_run_valid(next, rest));
        lemma_not_failed(next, rest);
        lemma_output_left(next, filled_after(at, filled, event), rest, rate);
        if let ULawEvent::Resampled { pcm, wanted } = event {
            let size = at.chunk_size as int;
            let left = at.samples.len() as int;
            let later = ulaw_wanted(rest) as int;
            let now = wanted as int;
            assert((now + later) * width == now * width + later * width) by (nonlinear_arith);
            if filled == at.chunk_size {
                assert(now * width <= pcm@.len() * width) by (nonlinear_arith)
                    requires
                        now <= pcm@.len(),
                        width > 0,
                ;
                lemma_needed_shift(left * 8000, rate, now);
                vstd::arithmetic::div_mod::lemma_mod_add_multiples_vanish(left, size);
            } else {
                vstd::arithmetic::div_mod::lemma_small_mod(0, at.chunk_size);
                vstd::arithmetic::div_mod::lemma_small_mod(filled, at.chunk_size);
                assert(later == 0) by (nonlinear_arith)
                    requires
                        later * width == 0,
                        width > 0,
                ;
            }
        }
    }
}

/// No bytes make no piece.
proof fn lemma_none_needed(size: nat)
    requires
        size > 0,
    ensures
        crate::pieces::pieces_needed(0, size) == 0,
{
    vstd::arithmetic::div_mod::lemma_fundamental_div_mod_converse(size - 1, size as int, 0, size - 1);
}

/// Full pieces add up to what is needed.
proof fn lemma_needed_shift(total: int, size: nat, full: int)
    requires
        total >= 0,
        size > 0,
        full >= 0,
    ensures
        crate::pieces::pieces_needed((total + full * size) as nat, size)
            == crate::pieces::pieces_needed(total as nat, size) + full,
{
    let width = size as int;
    let x = total + width - 1;
    vstd::arithmetic::div_mod::lemma_fundamental_div_mod(x, width);
    let q = x / width;
    let r = x % width;
    assert(full * width >= 0) by (nonlinear_arith)
        requires
            full >= 0,
            width > 0,
    ;
    assert(x + full * width == (q + full) * width + r) by (nonlinear_arith)
        requires
            x == width * q + r,
    ;
    vstd::arithmetic::div_mod::lemma_fundamental_div_mod_converse(
        x + full * width,
        width,
        q + full,
        r,
    );
}

} // verus!
