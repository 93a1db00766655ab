//! The laws of the conversion to mu-law.

use crate::ulaw::transcoder::{
    block_action, check_header, encode_block, fill_buffer, linear_to_mulaw, load_block, ULaw,
    ULawAction, ULawError, ULawEvent, ULawStep, ULawStream, ULawView,
};
use vstd::prelude::*;

verus! {

/// The bytes of a block are those of its wanted samples, one for one: the byte at a place
/// is the one that its sample alone is compressed to.
pub proof fn law_block_encoded(pcm: &Vec<i16>, wanted: usize, bytes: Vec<u8>)
    requires
        call_ensures(encode_block, (pcm, wanted), bytes),
        wanted <= pcm@.len(),
    ensures
        bytes@.len() == wanted,
        forall|i: int|
            0 <= i < wanted ==> (#[trigger] bytes@[i]) as int == crate::ulaw::transcoder::ulaw_byte(
                pcm@[i] as int,
            ),
        forall|i: int, byte: u8|
            0 <= i < wanted && #[trigger] call_ensures(linear_to_mulaw, (pcm@[i],), byte)
                ==> bytes@[i] == byte,
{
    assert forall|i: int| 0 <= i < wanted implies (#[trigger] bytes@[i]) as int
        == crate::ulaw::transcoder::ulaw_byte(pcm@[i] as int) by {
        assert(pcm@.take(wanted as int)[i] == pcm@[i]);
        crate::ulaw::transcoder::law_mulaw_monotone(pcm@[i], pcm@[i]);
    }
}

/// Any block can be encoded, as far as it goes.
pub proof fn law_block_encodable(pcm: &Vec<i16>, wanted: usize)
    requires
        wanted <= pcm@.len(),
    ensures
        call_requires(encode_block, (pcm, wanted)),
{
}

/// The value that a mu-law byte stands for, by the tables of G.711: each of the eight
/// segments has sixteen steps, twice as wide as those of the one before, and the value is
/// in the middle of its step.
pub open spec fn mulaw_value(byte: int) -> int {
    let code = if byte >= 128 { 255 - byte } else { 127 - byte };
    let step = code % 16 + 16;
    let middle = if code < 16 {
        2 * step + 1
    } else if code < 32 {
        4 * step + 2
    } else if code < 48 {
        8 * step + 4
    } else if code < 64 {
        16 * step + 8
    } else if code < 80 {
        32 * step + 16
    } else if code < 96 {
        64 * step + 32
    } else if code < 112 {
        128 * step + 64
    } else {
        256 * step + 128
    };
    if byte >= 128 { 4 * (middle - 33) } else { -4 * (middle - 33) }
}

/// A sample is compressed to a byte that stands for nearly the same value: what is between
/// them is at most a thirty-second of the sample, and a little more for small ones. The
/// sign is kept, and only the loudest samples are clipped.
pub proof fn law_compression_is_near(pcm: i16, byte: u8)
    requires
        call_ensures(linear_to_mulaw, (pcm,), byte),
    ensures
        pcm >= 0 <==> byte >= 128,
        -32636 <= pcm <= 32635 ==> {
            let far = if pcm < 0 { -(pcm as int) } else { pcm as int };
            let off = mulaw_value(byte as int) - pcm;
            -(far / 32 + 9) <= off <= far / 32 + 9
        },
        pcm > 32635 ==> byte == 128,
        pcm < -32636 ==> byte == 0,
{
    let sample = pcm as int;
    let magnitude = crate::ulaw::transcoder::ulaw_magnitude(sample);
    let (segment, width) = crate::ulaw::transcoder::ulaw_segment(magnitude);
    assert(16 <= magnitude / width < 32);
    let code = 16 * (segment - 1) + magnitude / width - 16;
    assert(byte == (if sample >= 0 { 255 - code } else { 127 - code }));
    assert(code % 16 + 16 == magnitude / width);
}

/// The samples of a file go into the buffer one for one: the sample at a place is the one
/// that was read there; silence fills the rest of the block, and what is behind the block
/// stays. The count is that of the samples. One that could not be read makes the call
/// fail, and nothing else does.
pub proof fn law_block_loaded(
    samples: &Vec<Option<i16>>,
    input_buf: &mut Vec<i16>,
    chunk_size: usize,
    res: Result<usize, ULawError>,
)
    requires
        call_ensures(load_block, (samples, input_buf, chunk_size), res),
        samples@.len() <= chunk_size <= old(input_buf)@.len(),
    ensures
        res is Ok <==> forall|i: int|
            0 <= i < samples@.len() ==> !(#[trigger] samples@[i] == None::<i16>),
        res is Ok ==> res->Ok_0 == samples@.len(),
        res is Err ==> res->Err_0 is BadSample && final(input_buf)@ == old(input_buf)@,
        final(input_buf)@.len() == old(input_buf)@.len(),
        res is Ok ==> forall|i: int|
            0 <= i < samples@.len() ==> samples@[i] == Some(#[trigger] final(input_buf)@[i]),
        res is Ok && samples@.len() > 0 ==> forall|i: int|
            samples@.len() <= i < chunk_size ==> #[trigger] final(input_buf)@[i] == 0,
        forall|i: int|
            chunk_size <= i < old(input_buf)@.len() ==> #[trigger] final(input_buf)@[i] == old(input_buf)@[i],
        samples@.len() == 0 ==> final(input_buf)@ == old(input_buf)@,
{
}

/// Any samples that fit in the block can be loaded.
pub proof fn law_block_loadable(
    samples: &Vec<Option<i16>>,
    input_buf: &mut Vec<i16>,
    chunk_size: usize,
)
    requires
        samples@.len() <= chunk_size <= old(input_buf)@.len(),
    ensures
        call_requires(load_block, (samples, input_buf, chunk_size)),
{
}

/// Reading a block takes the next samples of the file, as many as the block has, or what
/// is left, puts each at its place in the buffer, fills up with silence, and leaves the
/// others to be read.
pub proof fn law_buffer_filled(
    reader: &mut hound::WavReader<&[u8]>,
    input_buf: &mut Vec<i16>,
    chunk_size: usize,
    res: Result<usize, ULawError>,
)
    requires
        call_ensures(fill_buffer, (reader, input_buf, chunk_size), res),
        chunk_size <= old(input_buf)@.len(),
    ensures
        ({
            let samples = crate::ulaw::transcoder::wav_remaining(*old(reader));
            let left = crate::ulaw::transcoder::wav_remaining(*final(reader));
            let count = samples.len() - left.len();
            &&& 0 <= count <= chunk_size
            &&& count < chunk_size ==> left.len() == 0
            &&& forall|i: int| 0 <= i < left.len() ==> #[trigger] left[i] == samples[count + i]
            &&& res is Ok <==> forall|i: int|
                0 <= i < count ==> !(#[trigger] samples[i] == None::<i16>)
            &&& res is Ok ==> res->Ok_0 == count
            &&& res is Err ==> res->Err_0 is BadSample
            &&& res is Ok ==> forall|i: int|
                0 <= i < count ==> samples[i] == Some(#[trigger] final(input_buf)@[i])
            &&& res is Ok && count > 0 ==> forall|i: int|
                count <= i < chunk_size ==> #[trigger] final(input_buf)@[i] == 0
        }),
        final(input_buf)@.len() == old(input_buf)@.len(),
        forall|i: int|
            chunk_size <= i < old(input_buf)@.len() ==> #[trigger] final(input_buf)@[i] == old(input_buf)@[i],
{
    let samples = crate::ulaw::transcoder::wav_remaining(*old(reader));
    let count = samples.len() - crate::ulaw::transcoder::wav_remaining(*final(reader)).len();
    let block = samples.take(count);
    assert(forall|i: int| 0 <= i < count ==> #[trigger] block[i] == samples[i]);
    assert(forall|i: int| 0 <= i < count ==> #[trigger] samples[i] == block[i]);
}

/// A file is taken if, and only if, it can be opened and has one channel; its conversion
/// starts with a resampler from the rate of the file to 8000 samples per second.
pub proof fn law_mono_only<'a>(
    ulaw: &ULaw,
    input: &str,
    wav: &'a [u8],
    res: Result<(ULawStream<'a>, ULawAction), ULawError>,
)
    requires
        call_ensures(ULaw::stream_transcode, (ulaw, input, wav), res),
    ensures
        match crate::ulaw::transcoder::wav_file(wav@) {
            None => res matches Err(ULawError::CannotOpen(name)) && name@ == input@,
            Some((channels, rate, samples)) => {
                &&& res is Ok <==> channels == 1
                &&& res is Err ==> (res->Err_0 matches ULawError::NotMono(found) && found
                    == channels)
                &&& res matches Ok((stream, action)) ==> {
                    &&& stream@.samples == samples
                    &&& stream@.step is CreateResampler
                    &&& action matches ULawAction::CreateResampler {
                        input_rate,
                        output_rate,
                        frames,
                        channels: mono,
                    }
                    &&& input_rate == rate
                    &&& output_rate == 8000
                    &&& frames == 1024
                    &&& mono == 1
                }
            },
        },
{
}

/// The header alone decides whether a file is taken, by its channels.
pub proof fn law_header_decides(
    channels: u16,
    sample_rate: u32,
    res: Result<ULawAction, ULawError>,
)
    requires
        call_ensures(check_header, (channels, sample_rate), res),
    ensures
        res is Ok <==> channels == 1,
        (res matches Ok(action) ==> (action matches ULawAction::CreateResampler {
            input_rate,
            output_rate,
            frames,
            channels: mono,
        } && input_rate == sample_rate && output_rate == 8000 && frames == 1024 && mono == 1)),
        res is Err ==> (res->Err_0 matches ULawError::NotMono(found) && found == channels),
{
}

/// A block with samples of the file is resampled; where there were none, all is flushed.
pub proof fn law_block_action(filled: usize, res: ULawAction)
    requires
        call_ensures(block_action, (filled,), res),
    ensures
        res is Flush <==> filled == 0,
        filled > 0 ==> (res matches ULawAction::Resample(count) && count == filled),
{
}

/// Once the resampler is there, and again once the bytes of a block are written, the next
/// samples of the file are handed over, as many as a block has, or what is left, each as
/// it stands in the file and at its place, with silence behind the last; where none are
/// left, the output is flushed. A sample that cannot be read ends the conversion.
pub proof fn law_next_block_handed<'a>(
    stream: &mut ULawStream<'a>,
    event: ULawEvent,
    res: Result<ULawAction, ULawError>,
    block: &Vec<i16>,
)
    requires
        call_ensures(ULawStream::advance, (stream, event), res),
        call_ensures(ULawStream::block, (final(stream),), block),
        event is ResamplerReady || event is Written,
    ensures
        ({
            let samples = old(stream)@.samples;
            let left = final(stream)@.samples;
            let count = samples.len() - left.len();
            let size = match event {
                ULawEvent::ResamplerReady(size) => size as nat,
                _ => old(stream)@.chunk_size,
            };
            &&& final(stream)@.chunk_size == size
            &&& 0 <= count <= size
            &&& count < size ==> left.len() == 0
            &&& forall|i: int| 0 <= i < left.len() ==> #[trigger] left[i] == samples[count + i]
            &&& res is Ok <==> forall|i: int|
                0 <= i < count ==> !(#[trigger] samples[i] == None::<i16>)
            &&& res is Err ==> res->Err_0 is BadSample && final(stream)@.step is Failed
            &&& res is Ok && count == 0 ==> res->Ok_0 is Flush && final(stream)@.step is Flush
            &&& res is Ok && count > 0 ==> {
                &&& res->Ok_0 matches ULawAction::Resample(filled)
                &&& filled == count
                &&& final(stream)@.step is Resample
                &&& block@.len() == size
                &&& forall|i: int| 0 <= i < count ==> samples[i] == Some(#[trigger] block@[i])
                &&& forall|i: int| count <= i < size ==> #[trigger] block@[i] == 0
            }
        }),
{
    let samples = old(stream)@.samples;
    let count = samples.len() - final(stream)@.samples.len();
    let taken = samples.take(count);
    assert(forall|i: int| 0 <= i < count ==> #[trigger] taken[i] == samples[i]);
    assert(forall|i: int| 0 <= i < count ==> #[trigger] samples[i] == taken[i]);
    assert(samples.skip(0) =~= samples);
}

/// The wanted samples of a resampled block are written, each as the byte that it alone is
/// compressed to; nothing is read for it.
pub proof fn law_resampled_written<'a>(
    stream: &mut ULawStream<'a>,
    pcm: Vec<i16>,
    wanted: usize,
    res: Result<ULawAction, ULawError>,
)
    requires
        call_ensures(ULawStream::advance, (stream, ULawEvent::Resampled { pcm, wanted }), res),
        wanted <= pcm@.len(),
    ensures
        res matches Ok(ULawAction::Write(bytes)) && bytes@.len() == wanted && forall|i: int|
            0 <= i < wanted ==> (#[trigger] bytes@[i]) as int == crate::ulaw::transcoder::ulaw_byte(
                pcm@[i] as int,
            ),
        final(stream)@.step is Write,
        final(stream)@.samples == old(stream)@.samples,
        final(stream)@.chunk_size == old(stream)@.chunk_size,
{
    assert forall|i: int| 0 <= i < wanted implies pcm@.take(wanted as int)[i] == pcm@[i] && 0
        <= #[trigger] crate::ulaw::transcoder::ulaw_byte(pcm@[i] as int) < 256 by {
        crate::ulaw::transcoder::law_mulaw_monotone(pcm@[i], pcm@[i]);
    }
}

/// A flushed conversion is done; a failure ends it with the error of what it waited for.
pub proof fn law_ulaw_ends<'a>(
    stream: &mut ULawStream<'a>,
    event: ULawEvent,
    res: Result<ULawAction, ULawError>,
    step: ULawStep,
)
    requires
        call_ensures(ULawStream::advance, (stream, event), res),
        call_ensures(ULawStream::step, (final(stream),), step),
        event is Flushed || event is Failed,
    ensures
        final(stream)@.samples == old(stream)@.samples,
        event is Flushed ==> step is Done && (res matches Ok(ULawAction::Finish)),
        event is Failed ==> step is Failed && res is Err,
        event is Failed && old(stream)@.step is CreateResampler ==> res->Err_0 is CreateResampler,
        event is Failed && old(stream)@.step is Resample ==> res->Err_0 is Resample,
        event is Failed && old(stream)@.step is Write ==> res->Err_0 is Write,
        event is Failed && old(stream)@.step is Flush ==> res->Err_0 is Flush,
{
}

/// At each place, each thing that can come of it is taken in.
pub proof fn law_ulaw_events_admitted<'a>(stream: &mut ULawStream<'a>, event: ULawEvent)
    requires
        match old(stream)@.step {
            ULawStep::CreateResampler => event is ResamplerReady || event is Failed,
            ULawStep::Resample => event is Failed || (event matches ULawEvent::Resampled {
                pcm,
                wanted,
            } && wanted <= pcm@.len()),
            ULawStep::Write => event is Written || event is Failed,
            ULawStep::Flush => event is Flushed || event is Failed,
            ULawStep::Done => false,
            ULawStep::Failed => false,
        },
    ensures
        call_requires(ULawStream::advance, (stream, event)),
{
}

/// Each call is one step of a run, so that what holds of runs holds of calls.
pub proof fn law_ulaw_call_is_a_step<'a>(
    stream: &mut ULawStream<'a>,
    event: ULawEvent,
    res: Result<ULawAction, ULawError>,
)
    requires
        call_ensures(ULawStream::advance, (stream, event), res),
    ensures
        crate::ulaw::transcoder::ulaw_run(old(stream)@, seq![event]) == final(stream)@,
{
    reveal_with_fuel(crate::ulaw::transcoder::ulaw_run, 2);
    assert(seq![event].drop_first() =~= Seq::empty());
}

/// Over a conversion that is done, the samples handed to the resampler, put together, are
/// as many as the file has, and each is the one that the file has at its place.
pub proof fn law_samples_in_place(at: ULawView, events: Seq<ULawEvent>)
    requires
        crate::ulaw::transcoder::ulaw_run_valid(at, events),
        at.step is CreateResampler,
        crate::ulaw::transcoder::ulaw_run(at, events).step is Done,
        crate::ulaw::transcoder::ulaw_run(at, events).chunk_size > 0,
    ensures
        crate::ulaw::transcoder::ulaw_handed(at, events).len() == at.samples.len(),
        forall|i: int|
            0 <= i < at.samples.len() ==> at.samples[i] == Some(
                #[trigger] crate::ulaw::transcoder::ulaw_handed(at, events)[i],
            ),
{
    crate::ulaw::transcoder::law_every_sample_once(at, events);
}

/// What an error says.
pub proof fn law_ulaw_error_text(error: &ULawError, text: String)
    requires
        call_ensures(ULawError::message, (error,), text),
    ensures
        text@ == match error {
            ULawError::CannotOpen(input) => "Cannot open input wav: "@ + input@,
            ULawError::NotMono(channels) => "Only mono WAV files are supported, found "@
                + crate::text::decimal(*channels as int) + " channels"@,
            ULawError::BadSample => "Cannot read sample"@,
            ULawError::CreateResampler => "Failed to create resampler"@,
            ULawError::Resample => "Resampling failed"@,
            ULawError::Write => "Failed to write ulaw data"@,
            ULawError::Flush => "Failed to flush ulaw data"@,
        },
{
}

/// What a conversion waits for can be asked for at any time, and goes with what the last
/// call asked for.
pub proof fn law_ulaw_step_told<'a>(
    stream: &mut ULawStream<'a>,
    event: ULawEvent,
    res: Result<ULawAction, ULawError>,
    step: ULawStep,
)
    requires
        call_ensures(ULawStream::advance, (stream, event), res),
        call_ensures(ULawStream::step, (final(stream),), step),
    ensures
        step == final(stream)@.step,
        match res {
            Ok(ULawAction::Resample(_)) => step is Resample,
            Ok(ULawAction::Write(_)) => step is Write,
            Ok(ULawAction::Flush) => step is Flush,
            Ok(ULawAction::Finish) => step is Done,
            Ok(ULawAction::CreateResampler { .. }) => false,
            Err(_) => step is Failed,
        },
{
}

/// The conversion is always ready for use.
pub proof fn law_ulaw_made(res: Result<ULaw, ULawError>)
    requires
        call_ensures(ULaw::new, (), res),
    ensures
        res is Ok,
{
}

} // verus!
