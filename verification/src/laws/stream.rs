//! The laws of a conversion that takes its input, and sends its result, as a stream.

use crate::messages::{AudioFormat, Payload, StreamConvertInput};
use crate::service::stream::{
    ReadOutcome, Received, Refusal, StreamAction, StreamConversion, StreamEvent, StreamStep,
};
use crate::service::{Code, Fault, Service};
use vstd::prelude::*;

verus! {

/// A piece of the input is written as it came, whatever the format and however long.
pub proof fn law_chunk_written_whole(
    at: StreamConversion,
    chunk: Vec<u8>,
    res: (StreamConversion, StreamAction),
)
    requires
        call_ensures(
            StreamConversion::advance,
            (
                at,
                StreamEvent::Message(
                    Received::Input(StreamConvertInput { payload: Some(Payload::Chunk(chunk)) }),
                ),
            ),
            res,
        ),
    ensures
        res.1 matches StreamAction::Write(bytes) && bytes@ == chunk@,
        res.0.step is Write,
{
}

/// A piece of the result is sent as it was read; where nothing was read, or reading
/// failed, the stream ends.
pub proof fn law_piece_sent_whole(
    at: StreamConversion,
    outcome: ReadOutcome,
    res: (StreamConversion, StreamAction),
)
    requires
        call_ensures(StreamConversion::advance, (at, StreamEvent::Output(outcome)), res),
    ensures
        match outcome {
            ReadOutcome::Bytes(piece) => if piece@.len() > 0 {
                res.0.step is Send && (res.1 matches StreamAction::Send(reply) && reply.chunk@
                    == piece@)
            } else {
                res.0.step is Finished && res.1 is Finish
            },
            ReadOutcome::Failed => res.0.step is Finished && res.1 is Finish,
        },
{
}

/// The calls lead a stream from one state to the next, by one event and to one action
/// each.
pub open spec fn are_calls(
    states: Seq<StreamConversion>,
    events: Seq<StreamEvent>,
    actions: Seq<StreamAction>,
) -> bool {
    &&& states.len() == events.len() + 1
    &&& actions.len() == events.len()
    &&& forall|i: int|
        0 <= i < events.len() ==> call_ensures(
            StreamConversion::advance,
            (states[i], events[i]),
            (states[i + 1], #[trigger] actions[i]),
        )
}

/// The bytes that an action asks to be written to the input file.
pub open spec fn bytes_to_write(action: StreamAction) -> Seq<u8> {
    match action {
        StreamAction::Write(bytes) => bytes@,
        _ => Seq::empty(),
    }
}

/// The bytes that an action asks to be sent to the client.
pub open spec fn bytes_to_send(action: StreamAction) -> Seq<u8> {
    match action {
        StreamAction::Send(reply) => reply.chunk@,
        _ => Seq::empty(),
    }
}

/// The bytes of the input that come with an event.
pub open spec fn bytes_received(event: StreamEvent) -> Seq<u8> {
    match event {
        StreamEvent::Message(
            Received::Input(StreamConvertInput { payload: Some(Payload::Chunk(chunk)) }),
        ) => chunk@,
        _ => Seq::empty(),
    }
}

/// The bytes of the result that come with an event.
pub open spec fn bytes_read(event: StreamEvent) -> Seq<u8> {
    match event {
        StreamEvent::Output(ReadOutcome::Bytes(bytes)) => bytes@,
        _ => Seq::empty(),
    }
}

/// A call asks to write just what came of the input, and to send just what came of the
/// result.
pub proof fn law_call_passes_bytes_on(
    at: StreamConversion,
    event: StreamEvent,
    res: (StreamConversion, StreamAction),
)
    requires
        call_ensures(StreamConversion::advance, (at, event), res),
    ensures
        bytes_to_write(res.1) == bytes_received(event),
        bytes_to_send(res.1) == bytes_read(event),
{
    assert(bytes_to_write(res.1) =~= bytes_received(event));
    assert(bytes_to_send(res.1) =~= bytes_read(event));
}

/// Over any calls, the bytes that are asked to be written, put together in order, are
/// those of the pieces received, and the bytes that are asked to be sent are those of the
/// result that were read.
pub proof fn law_bytes_conserved(
    states: Seq<StreamConversion>,
    events: Seq<StreamEvent>,
    actions: Seq<StreamAction>,
)
    requires
        are_calls(states, events, actions),
    ensures
        actions.map_values(|action: StreamAction| bytes_to_write(action)).flatten()
            == events.map_values(|event: StreamEvent| bytes_received(event)).flatten(),
        actions.map_values(|action: StreamAction| bytes_to_send(action)).flatten()
            == events.map_values(|event: StreamEvent| bytes_read(event)).flatten(),
{
    let written = actions.map_values(|action: StreamAction| bytes_to_write(action));
    let sent = actions.map_values(|action: StreamAction| bytes_to_send(action));
    let received = events.map_values(|event: StreamEvent| bytes_received(event));
    let read = events.map_values(|event: StreamEvent| bytes_read(event));
    assert forall|i: int| 0 <= i < events.len() implies written[i] == received[i] && sent[i]
        == read[i] by {
        assert(call_ensures(
            StreamConversion::advance,
            (states[i], events[i]),
            (states[i + 1], actions[i]),
        ));
        law_call_passes_bytes_on(states[i], events[i], (states[i + 1], actions[i]));
    }
    assert(written =~= received);
    assert(sent =~= read);
}

/// Where the client's stream ends or breaks, the input is synced; a message that is no
/// piece ends the stream with a report.
pub proof fn law_end_of_upload(
    at: StreamConversion,
    received: Received<()>,
    res: (StreamConversion, StreamAction),
)
    requires
        call_ensures(StreamConversion::advance, (at, StreamEvent::Message(received)), res),
    ensures
        received is End || received is Broken ==> res.0.step is Sync && res.1 is Sync,
        (received matches Received::Input(message) ==> (message.payload is None || message.payload
            matches Some(Payload::Metadata(_))) ==> {
            &&& res.0.step is Finished
            &&& res.1 matches StreamAction::Report(status)
            &&& status.code == Code::Internal
            &&& status.message@ == "Error: "@ + "Invalid payload in StreamConvertInput"@
        }),
{
}

/// What is asked for once a step is done: a directory, then the input file in it, then
/// message after message; once the input is synced the transcoder, for mu-law the one
/// that sends its bytes in pieces of 64 KiB as they come, else FFmpeg with the metadata
/// that the client gave; then, unless it was mu-law, the result is opened and read in
/// pieces of 64 KiB, the next one when the last has been sent.
pub proof fn law_stream_course(at: StreamConversion, res: (StreamConversion, StreamAction))
    requires
        call_ensures(StreamConversion::advance, (at, StreamEvent::Done), res),
    ensures
        match at.step {
            StreamStep::MakeDir => res.0.step is CreateInput && (res.1 matches
                StreamAction::CreateInput(name) && name@ == "input.wav"@),
            StreamStep::CreateInput => res.0.step is Receive && res.1 is Receive,
            StreamStep::Write => res.0.step is Receive && res.1 is Receive,
            StreamStep::Sync => res.0.step is Transcode && match at.format {
                AudioFormat::Ulaw => res.1 matches StreamAction::TranscodeULaw {
                    input,
                    chunk_size,
                } && input@ == "input.wav"@ && chunk_size == 65536,
                AudioFormat::Mp3 => res.1 matches StreamAction::TranscodeFFMpeg {
                    input,
                    metadata,
                    output,
                } && input@ == "input.wav"@ && metadata@ == at.metadata@ && output@ == "output."@
                    + "mp3"@,
                AudioFormat::M4a => res.1 matches StreamAction::TranscodeFFMpeg {
                    input,
                    metadata,
                    output,
                } && input@ == "input.wav"@ && metadata@ == at.metadata@ && output@ == "output."@
                    + "m4a"@,
                AudioFormat::Unspecified => true,
            },
            StreamStep::Transcode => match at.format {
                AudioFormat::Ulaw => res.0.step is Finished && res.1 is Finish,
                AudioFormat::Mp3 => res.0.step is OpenOutput && (res.1 matches
                    StreamAction::OpenOutput(name) && name@ == "output."@ + "mp3"@),
                AudioFormat::M4a => res.0.step is OpenOutput && (res.1 matches
                    StreamAction::OpenOutput(name) && name@ == "output."@ + "m4a"@),
                AudioFormat::Unspecified => true,
            },
            StreamStep::OpenOutput => res.0.step is ReadOutput && res.1
                == StreamAction::ReadOutput(65536),
            StreamStep::Send => res.0.step is ReadOutput && res.1 == StreamAction::ReadOutput(65536),
            _ => true,
        },
{
}

/// The format stays, and so does the metadata until the transcoder gets it.
pub proof fn law_stream_keeps_request(
    at: StreamConversion,
    event: StreamEvent,
    res: (StreamConversion, StreamAction),
)
    requires
        call_ensures(StreamConversion::advance, (at, event), res),
    ensures
        res.0.format == at.format,
        !(at.step is Sync) && !(res.0.step is Transcode) ==> res.0.metadata@ == at.metadata@,
{
}

/// A fault ends the stream, and the client is told its text.
pub proof fn law_fault_reported(
    at: StreamConversion,
    fault: Fault,
    res: (StreamConversion, StreamAction),
)
    requires
        call_ensures(StreamConversion::advance, (at, StreamEvent::Failed(fault)), res),
    ensures
        res.0.step is Finished,
        res.1 matches StreamAction::Report(status) && status.code == Code::Internal
            && status.message@ == "Error: "@ + match fault {
            Fault::CreateDir => "tmp dir create"@,
            Fault::DirPath => "no tmp dir path"@,
            Fault::CreateFile => "file create"@,
            Fault::WriteInput => "file write"@,
            Fault::WriteChunk => "write file"@,
            Fault::SyncFile => "sync file"@,
            Fault::Transcode => "transcode"@,
            Fault::Thread(reason) => reason@,
            Fault::ReadOutput(path) => "failed to read file: "@ + path@,
            Fault::OpenOutput(path) => "can't open "@ + path@,
            Fault::Send => "can't send"@,
        },
{
}

/// At each place, each thing that can come of it is taken in: any message where one is
/// waited for, any piece of up to 64 KiB of the result, and elsewhere success or the fault
/// of that place.
pub proof fn law_stream_events_admitted(at: StreamConversion, event: StreamEvent)
    requires
        at.format != AudioFormat::Unspecified,
        match at.step {
            StreamStep::Receive => event is Message,
            StreamStep::ReadOutput => event matches StreamEvent::Output(outcome) && (outcome
                matches ReadOutcome::Bytes(bytes) ==> bytes@.len() <= 65536),
            StreamStep::Finished => false,
            StreamStep::MakeDir => event is Done || (event matches StreamEvent::Failed(fault) && (
            fault is CreateDir || fault is DirPath)),
            StreamStep::CreateInput => event is Done || (event matches StreamEvent::Failed(fault)
                && fault is CreateFile),
            StreamStep::Write => event is Done || (event matches StreamEvent::Failed(fault)
                && fault is WriteChunk),
            StreamStep::Sync => event is Done || (event matches StreamEvent::Failed(fault)
                && fault is SyncFile),
            StreamStep::Transcode => event is Done || (event matches StreamEvent::Failed(fault)
                && (fault is Transcode || (fault is Thread && at.format != AudioFormat::Ulaw))),
            StreamStep::OpenOutput => event is Done || (event matches StreamEvent::Failed(fault)
                && fault is OpenOutput),
            StreamStep::Send => event is Done || (event matches StreamEvent::Failed(fault)
                && fault is Send),
        },
    ensures
        call_requires(StreamConversion::advance, (at, event)),
{
}

/// A stream is accepted if, and only if, its first message asks for one of the three
/// formats, by its number; it then starts with that format and the metadata given, and
/// asks for a directory.
pub proof fn law_stream_accepted<E>(
    service: &Service,
    first: Received<E>,
    res: Result<(StreamConversion, StreamAction), Refusal<E>>,
)
    requires
        call_ensures(Service::convert_stream, (service, first), res),
    ensures
        res is Ok <==> (first matches Received::Input(
            StreamConvertInput { payload: Some(Payload::Metadata(meta)) },
        ) && (meta.format == 1 || meta.format == 2 || meta.format == 3)),
        (first matches Received::Input(
            StreamConvertInput { payload: Some(Payload::Metadata(meta)) },
        ) ==> (res matches Ok((stream, action)) ==> {
            &&& stream.metadata@ == meta.metadata@
            &&& stream.format is Mp3 <==> meta.format == 1
            &&& stream.format is M4a <==> meta.format == 2
            &&& stream.format is Ulaw <==> meta.format == 3
            &&& stream.step is MakeDir
            &&& action is MakeDir
        })),
{
}

/// A refused stream is told why: what is wrong with its format, that its first message
/// has to be metadata, that it ended too early, or the very error with which it broke.
pub proof fn law_stream_refused<E>(
    service: &Service,
    first: Received<E>,
    res: Result<(StreamConversion, StreamAction), Refusal<E>>,
)
    requires
        call_ensures(Service::convert_stream, (service, first), res),
        res is Err,
    ensures
        match first {
            Received::Broken(err) => res->Err_0 == Refusal::<E>::Upstream(err),
            Received::End => res->Err_0 matches Refusal::Status(status) && status.code
                == Code::InvalidArgument && status.message@ == "Stream ended before metadata"@,
            Received::Input(message) => res->Err_0 matches Refusal::Status(status)
                && status.code == Code::InvalidArgument && match message.payload {
                Some(Payload::Metadata(meta)) => status.message@ == (if meta.format == 0 {
                    "audio format unspecified"@
                } else {
                    "invalid audio format: "@ + crate::text::decimal(meta.format as int)
                }),
                _ => status.message@ == "First message must be metadata"@,
            },
        },
{
}

} // verus!
