//! The laws of the FFmpeg conversion.

use crate::ffmpeg::transcoder::{
    encoder_settings, filter_args, filter_spec, prepare_metadata, sink_frame_size, transcode,
    CodecFacts, EncoderSettings, LayoutChoice, Stage, TimeBase, Transcode, TranscodeError,
    TranscodeEvent, TranscodeStep, TranscodeView,
};
use crate::ffmpeg::wrapper::FFMpegWrapper;
use vstd::prelude::*;

verus! {

/// A packet of the audio stream, whichever that is, goes to the decoder, rescaled from its
/// own time base to that of the input; a packet of another stream, or one that cannot be
/// read, does not, and the next one is read.
pub proof fn law_audio_packets_decoded(
    run: &mut Transcode,
    event: TranscodeEvent,
    res: Result<TranscodeStep, TranscodeError>,
)
    requires
        call_ensures(Transcode::advance, (run, event), res),
        old(run)@.step is ReadPacket,
        event is Packet || event is BadPacket,
    ensures
        res == Ok::<TranscodeStep, TranscodeError>(final(run)@.step),
        final(run)@.transcoder == old(run)@.transcoder,
        final(run)@.metadata == old(run)@.metadata,
        final(run)@.step is SendPacket <==> (event matches TranscodeEvent::Packet { stream, .. }
            && stream == old(run)@.transcoder.stream),
        !(final(run)@.step is SendPacket) ==> final(run)@.step is ReadPacket,
        (final(run)@.step matches TranscodeStep::SendPacket { from, to } ==> (event matches
            TranscodeEvent::Packet { time_base, .. } && from == time_base) && to == old(run)@.transcoder.in_time_base),
{
}

/// At each place, each thing that can come of it is taken in.
pub proof fn law_transcode_events_admitted(run: &mut Transcode, event: TranscodeEvent)
    requires
        match old(run)@.step {
            TranscodeStep::Setup => event is Configured || event is Failed,
            TranscodeStep::ReadPacket => event is Packet || event is BadPacket || event
                is EndOfInput,
            TranscodeStep::PullFrame(_) => event is Received || event is Nothing || event is NoSink,
            TranscodeStep::ReceiveFrame(_) => event is Received || event is Nothing,
            TranscodeStep::ReceivePacket(_) => event is Received || event is Nothing,
            TranscodeStep::Done => false,
            TranscodeStep::Failed => false,
            _ => event is Done || event is Failed,
        },
    ensures
        call_requires(Transcode::advance, (run, event)),
{
}

/// The files are opened, the input first; the header follows the set-up, and the first
/// packet the header.
pub proof fn law_opening(
    run: &mut Transcode,
    event: TranscodeEvent,
    res: Result<TranscodeStep, TranscodeError>,
)
    requires
        call_ensures(Transcode::advance, (run, event), res),
        event is Done,
    ensures
        old(run)@.step is OpenInput ==> final(run)@.step is OpenOutput,
        old(run)@.step is OpenOutput ==> final(run)@.step is Setup,
        old(run)@.step is WriteHeader ==> final(run)@.step is ReadPacket,
        old(run)@.step is WriteTrailer ==> final(run)@.step is Done,
        res == Ok::<TranscodeStep, TranscodeError>(final(run)@.step),
        final(run)@.transcoder == old(run)@.transcoder,
        final(run)@.metadata == old(run)@.metadata,
{
}

/// What the set-up has found is kept, and the header is written where each metadata entry
/// has something before its first `=`; else the conversion ends with an error.
pub proof fn law_configured(
    run: &mut Transcode,
    event: TranscodeEvent,
    res: Result<TranscodeStep, TranscodeError>,
)
    requires
        call_ensures(Transcode::advance, (run, event), res),
        old(run)@.step is Setup,
        event is Configured,
    ensures
        event matches TranscodeEvent::Configured { stream, in_time_base, out_time_base } && final(run)@.transcoder.stream == stream && final(run)@.transcoder.in_time_base == in_time_base
            && final(run)@.transcoder.out_time_base == out_time_base,
        final(run)@.metadata == old(run)@.metadata,
        res is Ok <==> forall|i: int|
            0 <= i < old(run)@.metadata.len() ==> (#[trigger] old(run)@.metadata[i])@.len() > 0
                && old(run)@.metadata[i]@[0] != '=',
        res is Ok ==> final(run)@.step is WriteHeader && res == Ok::<TranscodeStep, TranscodeError>(
            TranscodeStep::WriteHeader,
        ),
        res is Err ==> final(run)@.step is Failed && res->Err_0.text()
            == "Invalid metadata key-value pair"@,
{
}

/// A packet or an end of input that the decoder has got makes it give frames until it has
/// no more. Each goes to the filter.
pub proof fn law_decoder_emptied(
    run: &mut Transcode,
    event: TranscodeEvent,
    res: Result<TranscodeStep, TranscodeError>,
)
    requires
        call_ensures(Transcode::advance, (run, event), res),
    ensures
        event is Done && old(run)@.step is SendPacket ==> final(run)@.step
            == TranscodeStep::ReceiveFrame(Stage::Packets),
        event is Done && old(run)@.step is SendDecoderEof ==> final(run)@.step
            == TranscodeStep::ReceiveFrame(Stage::DecoderEof),
        (old(run)@.step matches TranscodeStep::ReceiveFrame(stage) ==> {
            &&& event is Received ==> final(run)@.step == TranscodeStep::AddFrame(stage)
            &&& event is Nothing ==> if stage is Packets {
                final(run)@.step is ReadPacket
            } else {
                final(run)@.step is FlushFilter
            }
        }),
{
}

/// A frame or a flush that the filter has got makes it give frames until it has no more.
/// Each goes to the encoder, and then the decoder is asked again, or, after the flush,
/// the encoder gets its end of input.
pub proof fn law_filter_emptied(
    run: &mut Transcode,
    event: TranscodeEvent,
    res: Result<TranscodeStep, TranscodeError>,
)
    requires
        call_ensures(Transcode::advance, (run, event), res),
    ensures
        (old(run)@.step matches TranscodeStep::AddFrame(stage) ==> event is Done ==> final(run)@.step == TranscodeStep::PullFrame(stage)),
        event is Done && old(run)@.step is FlushFilter ==> final(run)@.step
            == TranscodeStep::PullFrame(Stage::FilterEof),
        (old(run)@.step matches TranscodeStep::PullFrame(stage) ==> {
            &&& event is Received ==> final(run)@.step == TranscodeStep::SendFrame(stage)
            &&& event is Nothing ==> if stage is FilterEof {
                final(run)@.step is SendEncoderEof
            } else {
                final(run)@.step == TranscodeStep::ReceiveFrame(stage)
            }
        }),
{
}

/// A frame or an end of input that the encoder has got makes it give packets until it has
/// no more. Each is written to the first stream of the output, rescaled from the time
/// base of the input to that of the output; then the filter is asked again, or, after the
/// end of input, the trailer is written.
pub proof fn law_encoder_emptied(
    run: &mut Transcode,
    event: TranscodeEvent,
    res: Result<TranscodeStep, TranscodeError>,
)
    requires
        call_ensures(Transcode::advance, (run, event), res),
    ensures
        (old(run)@.step matches TranscodeStep::SendFrame(stage) ==> event is Done ==> final(run)@.step == TranscodeStep::ReceivePacket(stage)),
        (old(run)@.step matches TranscodeStep::WritePacket { stage, .. } ==> event is Done
            ==> final(run)@.step == TranscodeStep::ReceivePacket(stage)),
        event is Done && old(run)@.step is SendEncoderEof ==> final(run)@.step
            == TranscodeStep::ReceivePacket(Stage::EncoderEof),
        (old(run)@.step matches TranscodeStep::ReceivePacket(stage) ==> {
            &&& event is Received ==> (final(run)@.step matches TranscodeStep::WritePacket {
                stage: at,
                stream,
                from,
                to,
            } && at == stage && stream == 0 && from == old(run)@.transcoder.in_time_base && to
                == old(run)@.transcoder.out_time_base)
            &&& event is Nothing ==> if stage is EncoderEof {
                final(run)@.step is WriteTrailer
            } else {
                final(run)@.step == TranscodeStep::PullFrame(stage)
            }
        }),
{
}

/// The end of the input goes to the decoder.
pub proof fn law_end_of_input(
    run: &mut Transcode,
    event: TranscodeEvent,
    res: Result<TranscodeStep, TranscodeError>,
)
    requires
        call_ensures(Transcode::advance, (run, event), res),
        old(run)@.step is ReadPacket,
        event is EndOfInput,
    ensures
        final(run)@.step is SendDecoderEof,
        res == Ok::<TranscodeStep, TranscodeError>(TranscodeStep::SendDecoderEof),
{
}

/// An error of FFmpeg ends the conversion and is what it ends with, and so is a filter
/// without an end. Nothing else does, but for the metadata; then the call gives the next
/// step. What the set-up has found, the metadata and the paths stay.
pub proof fn law_first_error_ends(
    run: &mut Transcode,
    event: TranscodeEvent,
    res: Result<TranscodeStep, TranscodeError>,
    input: (&str, &str),
    output: (&str, &str),
)
    requires
        call_ensures(Transcode::advance, (run, event), res),
        old(run)@.step.answered_by(event),
        call_ensures(Transcode::input, (old(run),), input.0),
        call_ensures(Transcode::input, (final(run),), input.1),
        call_ensures(Transcode::output, (old(run),), output.0),
        call_ensures(Transcode::output, (final(run),), output.1),
    ensures
        (event matches TranscodeEvent::Failed(text) ==> final(run)@.step is Failed && res
            is Err && res->Err_0.text() == text@),
        event is NoSink ==> final(run)@.step is Failed && res is Err && res->Err_0.text()
            == "Failed to get 'out' filter sink"@,
        res is Err ==> event is Failed || event is NoSink || event is Configured,
        res is Ok ==> res->Ok_0 == final(run)@.step && !(final(run)@.step is Failed),
        !(event is Configured) ==> final(run)@.transcoder == old(run)@.transcoder,
        final(run)@.metadata == old(run)@.metadata,
        input.0@ == input.1@,
        output.0@ == output.1@,
{
}

/// A new conversion opens the file that it was given, for the output that it was given,
/// with all of the metadata.
pub proof fn law_transcode_starts(
    input: &str,
    metadata: &Vec<String>,
    output: &str,
    run: Transcode,
    from: &str,
    to: &str,
    step: TranscodeStep,
)
    requires
        call_ensures(transcode, (input, metadata, output), run) || exists|wrapper: FFMpegWrapper|
            #[trigger] call_ensures(
                FFMpegWrapper::transcode,
                (&wrapper, input, metadata, output),
                run,
            ),
        call_ensures(Transcode::input, (&run,), from),
        call_ensures(Transcode::output, (&run,), to),
        call_ensures(Transcode::step, (&run,), step),
    ensures
        from@ == input@,
        to@ == output@,
        step is OpenInput,
        run@.step is OpenInput,
        run@.metadata.len() == metadata@.len(),
        forall|i: int|
            0 <= i < metadata@.len() ==> (#[trigger] run@.metadata[i])@ == metadata@[i]@,
{
}

/// The key and the value of a metadata entry: what stands before its first `=`, and what
/// stands after it.
pub open spec fn parts_of(entry: Seq<char>, key: Seq<char>, value: Seq<char>) -> bool {
    &&& key.len() > 0
    &&& forall|i: int| 0 <= i < key.len() ==> key[i] != '=' && entry[i] == #[trigger] key[i]
    &&& if entry.len() == key.len() {
        value.len() == 0
    } else {
        &&& entry.len() == key.len() + 1 + value.len()
        &&& entry[key.len() as int] == '='
        &&& forall|i: int|
            0 <= i < value.len() ==> entry[key.len() + 1 + i] == #[trigger] value[i]
    }
}

/// A split entry with a key has these parts.
proof fn lemma_parts(entry: String, pair: (String, String))
    requires
        crate::ffmpeg::transcoder::is_entry(entry, pair),
        entry@.len() > 0,
        entry@[0] != '=',
    ensures
        parts_of(entry@, pair.0@, pair.1@),
{
    let key = pair.0@;
    assert forall|i: int| 0 <= i < key.len() implies key[i] != '=' && entry@[i] == #[trigger] key[i] by {
        assert(key.contains(key[i]));
    }
}

/// When the header is written, the metadata to set are the entries that were given, in
/// their order, each taken apart at its first `=`; they stay as they are after that.
pub proof fn law_header_metadata(
    run: &mut Transcode,
    event: TranscodeEvent,
    res: Result<TranscodeStep, TranscodeError>,
    before: &Vec<(String, String)>,
    pairs: &Vec<(String, String)>,
)
    requires
        call_ensures(Transcode::advance, (run, event), res),
        call_ensures(Transcode::pairs, (old(run),), before),
        call_ensures(Transcode::pairs, (final(run),), pairs),
    ensures
        event is Configured && res is Ok ==> pairs@.len() == old(run)@.metadata.len(),
        event is Configured && res is Ok ==> forall|i: int|
            0 <= i < pairs@.len() ==> parts_of(
                old(run)@.metadata[i]@,
                (#[trigger] pairs@[i]).0@,
                pairs@[i].1@,
            ),
        old(run)@.step.answered_by(event) && !(event is Configured) ==> pairs@ == before@,
{
    if event is Configured && res is Ok {
        assert forall|i: int| 0 <= i < pairs@.len() implies parts_of(
            old(run)@.metadata[i]@,
            (#[trigger] pairs@[i]).0@,
            pairs@[i].1@,
        ) by {
            lemma_parts(old(run)@.metadata[i], pairs@[i]);
        }
    }
}

/// Metadata entries are read in order, each taken apart at its first `=`; one with
/// nothing before it makes the call fail, and nothing else does.
pub proof fn law_metadata_read(
    entries: &Vec<String>,
    res: Result<Vec<(String, String)>, TranscodeError>,
)
    requires
        call_ensures(prepare_metadata, (entries,), res),
    ensures
        res is Ok <==> forall|i: int|
            0 <= i < entries@.len() ==> (#[trigger] entries@[i])@.len() > 0 && entries@[i]@[0]
                != '=',
        res is Err ==> res->Err_0.text() == "Invalid metadata key-value pair"@,
        res is Ok ==> (res->Ok_0)@.len() == entries@.len(),
        res is Ok ==> forall|i: int|
            0 <= i < entries@.len() ==> parts_of(
                entries@[i]@,
                (#[trigger] (res->Ok_0)@[i]).0@,
                (res->Ok_0)@[i].1@,
            ),
{
    if res is Ok {
        let pairs = (res->Ok_0)@;
        assert forall|i: int| 0 <= i < entries@.len() implies parts_of(
            entries@[i]@,
            (#[trigger] pairs[i]).0@,
            pairs[i].1@,
        ) by {
            lemma_parts(entries@[i], pairs[i]);
        }
    }
}

/// The encoder keeps the rate of the input and its limit of the bit rate, and has the
/// container's header flag; a codec that lists its layouts is given the best for the
/// channels of the input, any other one channel. Where, and only where, the description
/// has the letters `mp3` in a row, quality and bit rate are set.
pub proof fn law_encoder_settings(facts: &CodecFacts, res: EncoderSettings)
    requires
        call_ensures(encoder_settings, (facts,), res),
    ensures
        facts.rate <= i32::MAX ==> res.rate == facts.rate && res.time_base.den == facts.rate,
        res.time_base.num == 1,
        res.time_base.den == res.rate,
        res.global_header <==> facts.global_header,
        res.max_bit_rate == facts.max_bit_rate,
        facts.lists_layouts ==> res.layout == LayoutChoice::BestFor(facts.channels),
        !facts.lists_layouts ==> res.layout is Mono,
        (exists|i: int|
            0 <= i < facts.description@.len() - 2 && #[trigger] facts.description@[i] == 'm'
                && facts.description@[i + 1] == 'p' && facts.description@[i + 2] == '3') ==> {
            &&& res.quality == Some(4usize)
            &&& res.bit_rate == Some(50000usize)
        },
        !(exists|i: int|
            0 <= i < facts.description@.len() - 2 && #[trigger] facts.description@[i] == 'm'
                && facts.description@[i + 1] == 'p' && facts.description@[i + 2] == '3') ==> {
            &&& res.quality is None
            &&& res.bit_rate is None
        },
{
    reveal_strlit("mp3");
    let text = facts.description@;
    let mp3 = "mp3"@;
    if exists|i: int|
        0 <= i < text.len() - 2 && #[trigger] text[i] == 'm' && text[i + 1] == 'p' && text[i + 2]
            == '3' {
        let i = choose|i: int|
            0 <= i < text.len() - 2 && #[trigger] text[i] == 'm' && text[i + 1] == 'p' && text[i
                + 2] == '3';
        assert(text.subrange(i, i + mp3.len()) =~= mp3);
        assert(crate::text::has_substring(text, mp3));
    } else if crate::text::has_substring(text, mp3) {
        let i = choose|i: int|
            0 <= i <= text.len() - mp3.len() && #[trigger] text.subrange(i, i + mp3.len()) == mp3;
        let found = text.subrange(i, i + mp3.len());
        assert(text[i] == found[0] && text[i + 1] == found[1] && text[i + 2] == found[2]);
    }
}

/// The source of the filter is described by the time base, the rate and the sample format
/// of the decoder, each under its name.
pub proof fn law_filter_args(time_base: TimeBase, rate: u32, sample_format: &str, res: String)
    requires
        call_ensures(filter_args, (time_base, rate, sample_format), res),
    ensures
        res@ == "time_base="@ + crate::text::decimal(time_base.num as int) + "/"@
            + crate::text::decimal(time_base.den as int) + ":sample_rate="@ + crate::text::decimal(
            rate as int,
        ) + ":sample_fmt="@ + sample_format@ + ":channel_layout=0x2"@,
{
}

/// The filter's end is held to the frame size of the encoder where that is known to be
/// fixed, and left free where it varies or is not known.
pub proof fn law_sink_frame_size(variable: Option<bool>, frame_size: u32, res: Option<u32>)
    requires
        call_ensures(sink_frame_size, (variable, frame_size), res),
    ensures
        res is Some <==> variable is Some && !variable->0,
        res is Some ==> res->0 == frame_size,
{
}

/// The filter is the third argument, or the one that changes nothing.
pub proof fn law_filter_spec(args: &Vec<String>, res: String)
    requires
        call_ensures(filter_spec, (args,), res),
    ensures
        args@.len() >= 4 ==> res@ == args@[3]@,
        args@.len() < 4 ==> res@ == seq!['a', 'n', 'u', 'l', 'l'],
{
    reveal_strlit("anull");
    assert("anull"@ =~= seq!['a', 'n', 'u', 'l', 'l']);
}

/// The text of FFmpeg's error is kept where it cannot be initialised.
pub proof fn law_wrapper_made(
    init: Result<(), String>,
    res: Result<FFMpegWrapper, TranscodeError>,
    text: String,
)
    requires
        call_ensures(FFMpegWrapper::new, (init,), res),
        res is Err ==> call_ensures(TranscodeError::message, (&res->Err_0,), text),
    ensures
        res is Ok <==> init is Ok,
        init is Err ==> text@ == (init->Err_0)@,
{
}

/// What an error says.
pub proof fn law_error_text(error: &TranscodeError, text: String)
    requires
        call_ensures(TranscodeError::message, (error,), text),
    ensures
        (*error matches TranscodeError::FFMpeg(reported) ==> text@ == reported@),
        *error is InvalidMetadata ==> text@ == "Invalid metadata key-value pair"@,
        *error is NoSink ==> text@ == "Failed to get 'out' filter sink"@,
{
}

/// Each call is one step of a run, so that what holds of runs holds of calls.
pub proof fn law_call_is_a_step(
    run: &mut Transcode,
    event: TranscodeEvent,
    res: Result<TranscodeStep, TranscodeError>,
)
    requires
        call_ensures(Transcode::advance, (run, event), res),
    ensures
        crate::ffmpeg::transcoder::transcode_run(old(run)@, seq![event]) == final(run)@,
{
    reveal_with_fuel(crate::ffmpeg::transcoder::transcode_run, 2);
    assert(seq![event].drop_first() =~= Seq::empty());
}

/// How many packets of the audio stream are read while the events happen.
pub open spec fn audio_packets(at: TranscodeView, events: Seq<TranscodeEvent>) -> nat
    decreases events.len(),
{
    if events.len() == 0 {
        0
    } else {
        let later = audio_packets(
            crate::ffmpeg::transcoder::transcode_run(at, seq![events[0]]),
            events.drop_first(),
        );
        match events[0] {
            TranscodeEvent::Packet { stream, .. } => if stream == at.transcoder.stream {
                later + 1
            } else {
                later
            },
            _ => later,
        }
    }
}

/// How many packets the decoder gets while the events happen.
pub open spec fn decoded_packets(at: TranscodeView, events: Seq<TranscodeEvent>) -> nat
    decreases events.len(),
{
    if events.len() == 0 {
        0
    } else {
        let later = decoded_packets(
            crate::ffmpeg::transcoder::transcode_run(at, seq![events[0]]),
            events.drop_first(),
        );
        if at.step is SendPacket && events[0] is Done { later + 1 } else { later }
    }
}

/// Over a run that does not fail, the decoder gets as many packets as were read from the
/// audio stream, but for one that is still on its way.
pub proof fn law_every_audio_packet_decoded(at: TranscodeView, events: Seq<TranscodeEvent>)
    requires
        crate::ffmpeg::transcoder::transcode_run_valid(at, events),
        !(crate::ffmpeg::transcoder::transcode_run(at, events).step is Failed),
    ensures
        audio_packets(at, events) + (if at.step is SendPacket { 1int } else { 0int })
            == decoded_packets(at, events) + (if crate::ffmpeg::transcoder::transcode_run(
            at,
            events,
        ).step is SendPacket { 1int } else { 0int }),
    decreases events.len(),
{
    if events.len() > 0 {
        let next = at.after(events[0]);
        let rest = events.drop_first();
        reveal_with_fuel(crate::ffmpeg::transcoder::transcode_run, 2);
        assert(seq![events[0]].drop_first() =~= Seq::empty());
        assert(crate::ffmpeg::transcoder::transcode_run(at, seq![events[0]]) == next);
        assert(crate::ffmpeg::transcoder::transcode_run_valid(next, rest));
        if next.step is Failed {
            assert(rest.len() == 0);
        }
        law_every_audio_packet_decoded(next, rest);
    }
}

/// What is done next can be asked for at any time, and is what the last call gave.
pub proof fn law_step_told(
    run: &mut Transcode,
    event: TranscodeEvent,
    res: Result<TranscodeStep, TranscodeError>,
    step: TranscodeStep,
)
    requires
        call_ensures(Transcode::advance, (run, event), res),
        call_ensures(Transcode::step, (final(run),), step),
        old(run)@.step.answered_by(event),
    ensures
        step == final(run)@.step,
        res is Ok ==> res->Ok_0 == step,
        res is Err ==> step is Failed,
{
}

} // verus!
