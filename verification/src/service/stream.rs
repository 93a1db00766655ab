//! A conversion that takes its input as a stream of messages and sends the result as
//! one.

use crate::messages::{AudioFormat, Payload, StreamConvertInput, StreamFileReply};
use crate::service::{
    prepare_input_file, prepare_output_file, read_format, Code, Fault, Service, SrvError, Status,
};
use crate::service::writer::WRITER_CHUNK;
use vstd::prelude::*;

verus! {

/// What came of waiting for the next message of a client, whose stream breaks with an
/// `E`.
pub enum Received<E> {
    /// A message.
    Input(StreamConvertInput),
    /// The stream broke with this error.
    Broken(E),
    /// The client has sent all of its messages.
    End,
}

/// Why a stream is not accepted.
#[derive(Debug)]
pub enum Refusal<E> {
    /// The client is told this.
    Status(Status),
    /// The client is told this error, with which its stream broke.
    Upstream(E),
}

/// What an accepted stream waits for.
#[derive(Clone, Copy, Debug, PartialEq, Eq, Structural)]
pub enum StreamStep {
    /// A temporary directory.
    MakeDir,
    /// The file for the input.
    CreateInput,
    /// The next message.
    Receive,
    /// A piece of the input to be written.
    Write,
    /// The input to be synced.
    Sync,
    /// The transcoder.
    Transcode,
    /// The result to be opened.
    OpenOutput,
    /// A piece of the result to be read.
    ReadOutput,
    /// A piece of the result to be sent.
    Send,
    /// Nothing.
    Finished,
}

/// What came of reading a piece of the result.
pub enum ReadOutcome {
    /// These bytes; none at the end of the file.
    Bytes(Vec<u8>),
    /// An error.
    Failed,
}

/// What has come of the thing that a stream waited for.
pub enum StreamEvent {
    /// It is done.
    Done,
    /// It failed.
    Failed(Fault),
    /// The answer to waiting for a message. With which error an accepted stream breaks
    /// makes no difference.
    Message(Received<()>),
    /// The answer to reading the result.
    Output(ReadOutcome),
}

/// What a stream asks for next.
pub enum StreamAction {
    /// Make a temporary directory.
    MakeDir,
    /// Create the file of this name in the directory.
    CreateInput(String),
    /// Wait for the next message.
    Receive,
    /// Write these bytes to the file.
    Write(Vec<u8>),
    /// Sync the file.
    Sync,
    /// Convert the file `input` to mu-law, and send the bytes in pieces of `chunk_size`
    /// as they come.
    TranscodeULaw { input: String, chunk_size: usize },
    /// Convert the file `input` to the file `output` and set the metadata.
    TranscodeFFMpeg { input: String, metadata: Vec<String>, output: String },
    /// Open the file of this name.
    OpenOutput(String),
    /// Read a piece of the file, of at most this many bytes.
    ReadOutput(usize),
    /// Send this message.
    Send(StreamFileReply),
    /// Send this failure, and end the stream.
    Report(Status),
    /// End the stream.
    Finish,
}

/// A stream that has been accepted.
pub struct StreamConversion {
    pub format: AudioFormat,
    pub metadata: Vec<String>,
    pub step: StreamStep,
}

/// The size of the pieces in which a result is read and sent.
pub const REPLY_SIZE: usize = 65536;

/// The first message of a client that is accepted: it names a format to convert to.
pub open spec fn accepted<E>(first: Received<E>) -> Option<(AudioFormat, Vec<String>)> {
    match first {
        Received::Input(
            StreamConvertInput { payload: Some(Payload::Metadata(meta)) },
        ) => match crate::service::wanted_format(meta.format) {
            Some(format) => Some((format, meta.metadata)),
            None => None,
        },
        _ => None,
    }
}

/// Why a first message is refused.
pub open spec fn refusal_text<E>(first: Received<E>) -> Seq<char> {
    match first {
        Received::Input(
            StreamConvertInput { payload: Some(Payload::Metadata(meta)) },
        ) => crate::service::format_refusal(meta.format),
        Received::Input(_) => "First message must be metadata"@,
        _ => "Stream ended before metadata"@,
    }
}

impl Service {
    /// Answers the first message of a stream: it has to name a format to convert to. An
    /// accepted stream comes with the first thing that it asks for, and one that broke is
    /// refused with the very error.
    pub fn convert_stream<E>(&self, first: Received<E>) -> (res: Result<
        (StreamConversion, StreamAction),
        Refusal<E>,
    >)
        ensures
            match accepted(first) {
                Some((format, metadata)) => res == Ok::<
                    (StreamConversion, StreamAction),
                    Refusal<E>,
                >(
                    (
                        StreamConversion { format, metadata, step: StreamStep::MakeDir },
                        StreamAction::MakeDir,
                    ),
                ),
                None => match first {
                    Received::Broken(err) => res == Err::<
                        (StreamConversion, StreamAction),
                        Refusal<E>,
                    >(Refusal::Upstream(err)),
                    _ => res matches Err(Refusal::Status(status)) && status.code
                        == Code::InvalidArgument && status.message@ == refusal_text(first),
                },
            },
    {
        let input = match first {
            Received::Broken(err) => {
                return Err(Refusal::Upstream(err));
            },
            Received::End => {
                let err = SrvError::InvalidArgument("Stream ended before metadata".to_owned());
                return Err(Refusal::Status(Status::from(err)));
            },
            Received::Input(input) => input,
        };
        match input.payload {
            Some(Payload::Metadata(meta)) => match read_format(meta.format) {
                Err(err) => Err(Refusal::Status(Status::from(err))),
                Ok(format) => {
                    let step = StreamStep::MakeDir;
                    Ok(
                        (
                            StreamConversion { format, metadata: meta.metadata, step },
                            StreamAction::MakeDir,
                        ),
                    )
                },
            },
            _ => {
                let err = SrvError::InvalidArgument("First message must be metadata".to_owned());
                Err(Refusal::Status(Status::from(err)))
            },
        }
    }
}

/// What a stream for `format` waits for at `step` can fail with `fault`. Only FFmpeg has a
/// thread of its own.
pub open spec fn stream_fails_with(format: AudioFormat, step: StreamStep, fault: Fault) -> bool {
    match step {
        StreamStep::MakeDir => fault is CreateDir || fault is DirPath,
        StreamStep::CreateInput => fault is CreateFile,
        StreamStep::Write => fault is WriteChunk,
        StreamStep::Sync => fault is SyncFile,
        StreamStep::Transcode => fault is Transcode || (fault is Thread && format
            != AudioFormat::Ulaw),
        StreamStep::OpenOutput => fault is OpenOutput,
        StreamStep::Send => fault is Send,
        _ => false,
    }
}

/// `event` answers what a stream for `format` waits for at `step`.
pub open spec fn stream_answers(
    format: AudioFormat,
    step: StreamStep,
    event: StreamEvent,
) -> bool {
    match event {
        StreamEvent::Failed(fault) => stream_fails_with(format, step, fault),
        StreamEvent::Message(_) => step is Receive,
        StreamEvent::Output(outcome) => step is ReadOutput && match outcome {
            ReadOutcome::Bytes(bytes) => bytes@.len() <= REPLY_SIZE,
            ReadOutcome::Failed => true,
        },
        StreamEvent::Done => !(step is Receive || step is ReadOutput || step is Finished),
    }
}

/// The bytes in a received message, where it is a piece of the input.
pub open spec fn chunk_of(received: Received<()>) -> Option<Vec<u8>> {
    match received {
        Received::Input(StreamConvertInput { payload: Some(Payload::Chunk(chunk)) }) => Some(chunk),
        _ => None,
    }
}

/// What a stream for `format` waits for after `event`. Where the client's stream ends,
/// or breaks, the input is complete; where the result ends, or cannot be read further,
/// so is the answer.
pub open spec fn stream_after(
    format: AudioFormat,
    step: StreamStep,
    event: StreamEvent,
) -> StreamStep {
    match event {
        StreamEvent::Failed(_) => StreamStep::Finished,
        StreamEvent::Message(received) => if chunk_of(received) is Some {
            StreamStep::Write
        } else if received is Input {
            StreamStep::Finished
        } else {
            StreamStep::Sync
        },
        StreamEvent::Output(outcome) => match outcome {
            ReadOutcome::Bytes(bytes) => if bytes@.len() > 0 {
                StreamStep::Send
            } else {
                StreamStep::Finished
            },
            ReadOutcome::Failed => StreamStep::Finished,
        },
        StreamEvent::Done => match step {
            StreamStep::MakeDir => StreamStep::CreateInput,
            StreamStep::CreateInput => StreamStep::Receive,
            StreamStep::Write => StreamStep::Receive,
            StreamStep::Sync => StreamStep::Transcode,
            StreamStep::Transcode => if format == AudioFormat::Ulaw {
                StreamStep::Finished
            } else {
                StreamStep::OpenOutput
            },
            StreamStep::OpenOutput => StreamStep::ReadOutput,
            StreamStep::Send => StreamStep::ReadOutput,
            _ => StreamStep::Finished,
        },
    }
}

/// The text of the failure that `event` makes a stream report, if any.
pub open spec fn stream_failure(event: StreamEvent) -> Option<Seq<char>> {
    match event {
        StreamEvent::Failed(fault) => Some("Error: "@ + fault.text()),
        StreamEvent::Message(received) => if received is Input && chunk_of(received) is None {
            Some("Error: "@ + "Invalid payload in StreamConvertInput"@)
        } else {
            None
        },
        _ => None,
    }
}

/// `action` is what a stream asks for that has come to `step` by `event`.
pub open spec fn stream_asks(
    at: StreamConversion,
    event: StreamEvent,
    step: StreamStep,
    action: StreamAction,
) -> bool {
    match step {
        StreamStep::MakeDir => action is MakeDir,
        StreamStep::CreateInput => action matches StreamAction::CreateInput(name) && name@
            == crate::service::input_file(),
        StreamStep::Receive => action is Receive,
        StreamStep::Write => event matches StreamEvent::Message(received) && action
            == StreamAction::Write(chunk_of(received)->0),
        StreamStep::Sync => action is Sync,
        StreamStep::Transcode => if at.format == AudioFormat::Ulaw {
            action matches StreamAction::TranscodeULaw { input, chunk_size } && input@
                == crate::service::input_file() && chunk_size == 65536
        } else {
            action matches StreamAction::TranscodeFFMpeg { input, metadata, output } && input@
                == crate::service::input_file() && metadata == at.metadata && output@
                == crate::service::output_file(at.format)
        },
        StreamStep::OpenOutput => action matches StreamAction::OpenOutput(name) && name@
            == crate::service::output_file(at.format),
        StreamStep::ReadOutput => action == StreamAction::ReadOutput(REPLY_SIZE),
        StreamStep::Send => event matches StreamEvent::Output(ReadOutcome::Bytes(bytes)) && action
            == StreamAction::Send(StreamFileReply { chunk: bytes }),
        StreamStep::Finished => match stream_failure(event) {
            Some(text) => action matches StreamAction::Report(status) && status.code
                == Code::Internal && status.message@ == text,
            None => action is Finish,
        },
    }
}

impl StreamConversion {
    /// Takes in what has come of the thing that the stream waited for, and says what
    /// to do next.
    pub fn advance(self, event: StreamEvent) -> (res: (StreamConversion, StreamAction))
        requires
            stream_answers(self.format, self.step, event),
            self.format != AudioFormat::Unspecified,
        ensures
            res.0.format == self.format,
            res.0.step == stream_after(self.format, self.step, event),
            if res.0.step is Transcode && self.format != AudioFormat::Ulaw {
                res.0.metadata@.len() == 0
            } else {
                res.0.metadata == self.metadata
            },
            stream_asks(self, event, res.0.step, res.1),
    {
        let StreamConversion { format, metadata, step } = self;
        match event {
            StreamEvent::Failed(fault) => {
                let status = Status::in_stream(&fault.error());
                (
                    StreamConversion { format, metadata, step: StreamStep::Finished },
                    StreamAction::Report(status),
                )
            },
            StreamEvent::Message(Received::Input(input)) => match input.payload {
                Some(Payload::Chunk(chunk)) => (
                    StreamConversion { format, metadata, step: StreamStep::Write },
                    StreamAction::Write(chunk),
                ),
                _ => {
                    let err = SrvError::InvalidArgument(
                        "Invalid payload in StreamConvertInput".to_owned(),
                    );
                    (
                        StreamConversion { format, metadata, step: StreamStep::Finished },
                        StreamAction::Report(Status::in_stream(&err)),
                    )
                },
            },
            StreamEvent::Message(_) => (
                StreamConversion { format, metadata, step: StreamStep::Sync },
                StreamAction::Sync,
            ),
            StreamEvent::Output(ReadOutcome::Bytes(bytes)) => if bytes.len() > 0 {
                (
                    StreamConversion { format, metadata, step: StreamStep::Send },
                    StreamAction::Send(StreamFileReply { chunk: bytes }),
                )
            } else {
                (
                    StreamConversion { format, metadata, step: StreamStep::Finished },
                    StreamAction::Finish,
                )
            },
            StreamEvent::Output(ReadOutcome::Failed) => (
                StreamConversion { format, metadata, step: StreamStep::Finished },
                StreamAction::Finish,
            ),
            StreamEvent::Done => match step {
                StreamStep::MakeDir => (
                    StreamConversion { format, metadata, step: StreamStep::CreateInput },
                    StreamAction::CreateInput(prepare_input_file()),
                ),
                StreamStep::CreateInput | StreamStep::Write => (
                    StreamConversion { format, metadata, step: StreamStep::Receive },
                    StreamAction::Receive,
                ),
                StreamStep::Sync => {
                    let step = StreamStep::Transcode;
                    let input = prepare_input_file();
                    if format == AudioFormat::Ulaw {
                        (
                            StreamConversion { format, metadata, step },
                            StreamAction::TranscodeULaw { input, chunk_size: WRITER_CHUNK },
                        )
                    } else {
                        let output = prepare_output_file(format);
                        (
                            StreamConversion { format, metadata: Vec::new(), step },
                            StreamAction::TranscodeFFMpeg { input, metadata, output },
                        )
                    }
                },
                StreamStep::Transcode => if format == AudioFormat::Ulaw {
                    (
                        StreamConversion { format, metadata, step: StreamStep::Finished },
                        StreamAction::Finish,
                    )
                } else {
                    (
                        StreamConversion { format, metadata, step: StreamStep::OpenOutput },
                        StreamAction::OpenOutput(prepare_output_file(format)),
                    )
                },
                StreamStep::OpenOutput | StreamStep::Send => (
                    StreamConversion { format, metadata, step: StreamStep::ReadOutput },
                    StreamAction::ReadOutput(REPLY_SIZE),
                ),
                _ => (
                    StreamConversion { format, metadata, step: StreamStep::Finished },
                    StreamAction::Finish,
                ),
            },
        }
    }
}

/// The place of a step in the course of a stream.
pub open spec fn stream_rank(step: StreamStep) -> int {
    match step {
        StreamStep::MakeDir => 0,
        StreamStep::CreateInput => 1,
        StreamStep::Receive | StreamStep::Write => 2,
        StreamStep::Sync => 3,
        StreamStep::Transcode => 4,
        StreamStep::OpenOutput => 5,
        StreamStep::ReadOutput | StreamStep::Send => 6,
        StreamStep::Finished => 7,
    }
}

/// A stream takes its steps in order and leaves none out: it never goes back, and,
/// unless it ends, it goes on by one place at most. It ends early only with a failure
/// to report, or with mu-law, which leaves no result to be read.
pub proof fn law_stream_order(format: AudioFormat, step: StreamStep, event: StreamEvent)
    requires
        stream_answers(format, step, event),
    ensures
        stream_rank(step) <= stream_rank(stream_after(format, step, event)),
        !(stream_after(format, step, event) is Finished) ==> stream_rank(
            stream_after(format, step, event),
        ) <= stream_rank(step) + 1,
        stream_after(format, step, event) is Finished ==> stream_failure(event) is Some
            || step is ReadOutput || (step is Transcode && format == AudioFormat::Ulaw),
        stream_failure(event) is Some ==> stream_after(format, step, event) is Finished,
{
}

/// The text of the failure that a stream reports tells at which step it came.
pub proof fn law_stream_failure_text(format: AudioFormat, step: StreamStep, event: StreamEvent)
    requires
        stream_answers(format, step, event),
        stream_failure(event) is Some,
    ensures
        ({
            let text = stream_failure(event)->0;
            match step {
                StreamStep::MakeDir => text == "Error: "@ + "tmp dir create"@ || text == "Error: "@
                    + "no tmp dir path"@,
                StreamStep::CreateInput => text == "Error: "@ + "file create"@,
                StreamStep::Receive => text == "Error: "@
                    + "Invalid payload in StreamConvertInput"@,
                StreamStep::Write => text == "Error: "@ + "write file"@,
                StreamStep::Sync => text == "Error: "@ + "sync file"@,
                StreamStep::Transcode => text == "Error: "@ + "transcode"@ || (format
                    != AudioFormat::Ulaw && (event matches StreamEvent::Failed(
                    Fault::Thread(reason),
                ) && text == "Error: "@ + reason@)),
                StreamStep::OpenOutput => event matches StreamEvent::Failed(
                    Fault::OpenOutput(path),
                ) && text == "Error: "@ + ("can't open "@ + path@),
                StreamStep::Send => text == "Error: "@ + "can't send"@,
                StreamStep::ReadOutput | StreamStep::Finished => false,
            }
        }),
{
}

/// Each event answers what the stream waits for when it comes.
pub open spec fn stream_run_valid(
    format: AudioFormat,
    step: StreamStep,
    events: Seq<StreamEvent>,
) -> bool
    decreases events.len(),
{
    events.len() > 0 ==> stream_answers(format, step, events[0]) && stream_run_valid(
        format,
        stream_after(format, step, events[0]),
        events.drop_first(),
    )
}

/// What a stream waits for after all of the events.
pub open spec fn stream_run(
    format: AudioFormat,
    step: StreamStep,
    events: Seq<StreamEvent>,
) -> StreamStep
    decreases events.len(),
{
    if events.len() == 0 {
        step
    } else {
        stream_run(format, stream_after(format, step, events[0]), events.drop_first())
    }
}

/// The bytes that the events make a stream write to its input file.
pub open spec fn stream_saved(events: Seq<StreamEvent>) -> Seq<u8>
    decreases events.len(),
{
    if events.len() == 0 {
        Seq::empty()
    } else {
        (match events[0] {
            StreamEvent::Message(received) => match chunk_of(received) {
                Some(chunk) => chunk@,
                None => Seq::empty(),
            },
            _ => Seq::empty(),
        }) + stream_saved(events.drop_first())
    }
}

/// The bytes that the events make a stream send to its client.
pub open spec fn stream_sent(events: Seq<StreamEvent>) -> Seq<u8>
    decreases events.len(),
{
    if events.len() == 0 {
        Seq::empty()
    } else {
        (match events[0] {
            StreamEvent::Output(ReadOutcome::Bytes(bytes)) => bytes@,
            _ => Seq::empty(),
        }) + stream_sent(events.drop_first())
    }
}

/// From the sync on, the input file stays as it is, so that the transcoder finds all
/// of it.
pub proof fn law_input_complete(format: AudioFormat, step: StreamStep, events: Seq<StreamEvent>)
    requires
        stream_run_valid(format, step, events),
        stream_rank(step) >= stream_rank(StreamStep::Sync),
    ensures
        stream_saved(events).len() == 0,
    decreases events.len(),
{
    if events.len() > 0 {
        law_stream_order(format, step, events[0]);
        law_input_complete(format, stream_after(format, step, events[0]), events.drop_first());
    }
}

/// No piece of a result is sent before the transcoder is done.
pub proof fn law_nothing_sent_early(format: AudioFormat, step: StreamStep, events: Seq<StreamEvent>)
    requires
        stream_run_valid(format, step, events),
        stream_rank(stream_run(format, step, events)) <= stream_rank(StreamStep::Transcode),
    ensures
        stream_sent(events).len() == 0,
    decreases events.len(),
{
    if events.len() > 0 {
        let next = stream_after(format, step, events[0]);
        law_rank_grows(format, next, events.drop_first());
        law_nothing_sent_early(format, next, events.drop_first());
    }
}

/// A stream never goes back.
pub proof fn law_rank_grows(format: AudioFormat, step: StreamStep, events: Seq<StreamEvent>)
    requires
        stream_run_valid(format, step, events),
    ensures
        stream_rank(step) <= stream_rank(stream_run(format, step, events)),
    decreases events.len(),
{
    if events.len() > 0 {
        law_stream_order(format, step, events[0]);
        law_rank_grows(format, stream_after(format, step, events[0]), events.drop_first());
    }
}

/// A stream that gets to a place and has not ended has been at all places before it: the
/// transcoder runs only on an input that was synced, and a result is read only after the
/// transcoder.
pub proof fn law_no_stream_step_left_out(
    format: AudioFormat,
    step: StreamStep,
    events: Seq<StreamEvent>,
    place: int,
)
    requires
        stream_run_valid(format, step, events),
        !(stream_run(format, step, events) is Finished),
        stream_rank(step) <= place <= stream_rank(stream_run(format, step, events)),
    ensures
        exists|n: int|
            0 <= n <= events.len() && stream_rank(
                #[trigger] stream_run(format, step, events.take(n)),
            ) == place,
    decreases events.len(),
{
    if place == stream_rank(step) {
        assert(events.take(0).len() == 0);
        assert(stream_rank(stream_run(format, step, events.take(0))) == place);
    } else {
        assert(events.len() > 0);
        let next = stream_after(format, step, events[0]);
        let rest = events.drop_first();
        assert(stream_run_valid(format, next, rest));
        law_stream_order(format, step, events[0]);
        if next is Finished {
            assert(rest.len() == 0);
        }
        law_no_stream_step_left_out(format, next, rest, place);
        let n = choose|n: int|
            0 <= n <= rest.len() && stream_rank(#[trigger] stream_run(format, next, rest.take(n)))
                == place;
        assert(events.take(n + 1).drop_first() =~= rest.take(n));
        assert(stream_rank(stream_run(format, step, events.take(n + 1))) == place);
    }
}

/// A failure is reported at most once, and nothing comes after it.
pub proof fn law_failure_is_last(
    format: AudioFormat,
    step: StreamStep,
    events: Seq<StreamEvent>,
    i: int,
)
    requires
        stream_run_valid(format, step, events),
        0 <= i < events.len(),
        stream_failure(events[i]) is Some,
    ensures
        i == events.len() - 1,
        stream_run(format, step, events) is Finished,
    decreases events.len(),
{
    let next = stream_after(format, step, events[0]);
    let rest = events.drop_first();
    assert(stream_run_valid(format, next, rest));
    if i == 0 {
        if rest.len() > 0 {
            assert(stream_answers(format, next, rest[0]));
        }
        assert(stream_run(format, next, rest) == next);
    } else {
        assert(rest[i - 1] == events[i]);
        law_failure_is_last(format, next, rest, i - 1);
    }
}

/// The events of a client that sends these messages and then no more, where each piece
/// can be written.
pub open spec fn upload_events(messages: Seq<StreamConvertInput>) -> Seq<StreamEvent>
    decreases messages.len(),
{
    if messages.len() == 0 {
        seq![StreamEvent::Message(Received::End)]
    } else {
        seq![StreamEvent::Message(Received::Input(messages[0])), StreamEvent::Done]
            + upload_events(messages.drop_first())
    }
}

/// The message is a piece of the input, and these are its bytes.
pub open spec fn is_chunk(message: StreamConvertInput, bytes: Seq<u8>) -> bool {
    message.payload matches Some(Payload::Chunk(chunk)) && chunk@ == bytes
}

/// The messages are pieces of the input, and these are their bytes.
pub open spec fn are_chunks(messages: Seq<StreamConvertInput>, pieces: Seq<Seq<u8>>) -> bool {
    &&& messages.len() == pieces.len()
    &&& forall|i: int| 0 <= i < messages.len() ==> is_chunk(#[trigger] messages[i], pieces[i])
}

/// A stream of pieces is saved whole and in order, and then synced.
pub proof fn law_upload_saved(
    format: AudioFormat,
    messages: Seq<StreamConvertInput>,
    pieces: Seq<Seq<u8>>,
)
    requires
        are_chunks(messages, pieces),
    ensures
        stream_run_valid(format, StreamStep::Receive, upload_events(messages)),
        stream_run(format, StreamStep::Receive, upload_events(messages)) is Sync,
        stream_saved(upload_events(messages)) == pieces.flatten(),
    decreases messages.len(),
{
    reveal_with_fuel(stream_run_valid, 3);
    reveal_with_fuel(stream_run, 3);
    reveal_with_fuel(stream_saved, 3);
    reveal_with_fuel(Seq::flatten, 2);
    let events = upload_events(messages);
    if messages.len() == 0 {
        assert(events.drop_first() =~= Seq::empty());
        assert(stream_saved(events) =~= pieces.flatten());
    } else {
        let rest = messages.drop_first();
        assert forall|i: int| 0 <= i < rest.len() implies is_chunk(
            #[trigger] rest[i],
            pieces.drop_first()[i],
        ) by {
            assert(rest[i] == messages[i + 1]);
        }
        law_upload_saved(format, rest, pieces.drop_first());
        assert(is_chunk(messages[0], pieces[0]));
        assert(events.drop_first().drop_first() =~= upload_events(rest));
        assert(events.drop_first()[0] is Done);
        assert(stream_saved(events) =~= pieces[0] + stream_saved(upload_events(rest)));
        assert(pieces.flatten() =~= pieces[0] + pieces.drop_first().flatten());
    }
}

/// The events of reading a result in these pieces to its end, where each can be sent.
pub open spec fn download_events(pieces: Seq<Vec<u8>>, end: Vec<u8>) -> Seq<StreamEvent>
    decreases pieces.len(),
{
    if pieces.len() == 0 {
        seq![StreamEvent::Output(ReadOutcome::Bytes(end))]
    } else {
        seq![StreamEvent::Output(ReadOutcome::Bytes(pieces[0])), StreamEvent::Done]
            + download_events(pieces.drop_first(), end)
    }
}

/// A result is sent whole and in order, and then the stream ends without a failure.
pub proof fn law_result_sent(format: AudioFormat, pieces: Seq<Vec<u8>>, end: Vec<u8>)
    requires
        end@.len() == 0,
        forall|i: int|
            0 <= i < pieces.len() ==> 0 < (#[trigger] pieces[i])@.len() <= REPLY_SIZE,
    ensures
        stream_run_valid(format, StreamStep::ReadOutput, download_events(pieces, end)),
        stream_run(format, StreamStep::ReadOutput, download_events(pieces, end)) is Finished,
        stream_sent(download_events(pieces, end)) == pieces.map_values(
            |piece: Vec<u8>| piece@,
        ).flatten(),
        forall|i: int|
            0 <= i < download_events(pieces, end).len() ==> stream_failure(
                #[trigger] download_events(pieces, end)[i],
            ) is None,
    decreases pieces.len(),
{
    reveal_with_fuel(stream_run_valid, 3);
    reveal_with_fuel(stream_run, 3);
    reveal_with_fuel(stream_sent, 3);
    reveal_with_fuel(Seq::flatten, 2);
    let events = download_events(pieces, end);
    let bytes = pieces.map_values(|piece: Vec<u8>| piece@);
    if pieces.len() == 0 {
        assert(events.drop_first() =~= Seq::empty());
        assert(stream_sent(events) =~= bytes.flatten());
    } else {
        let rest = pieces.drop_first();
        assert forall|i: int| 0 <= i < rest.len() implies 0 < (#[trigger] rest[i])@.len()
            <= REPLY_SIZE by {
            assert(rest[i] == pieces[i + 1]);
        }
        law_result_sent(format, rest, end);
        assert(0 < pieces[0]@.len() <= REPLY_SIZE);
        assert(events.drop_first().drop_first() =~= download_events(rest, end));
        assert(events.drop_first()[0] is Done);
        assert(bytes.drop_first() =~= rest.map_values(|piece: Vec<u8>| piece@));
        assert(stream_sent(events) =~= pieces[0]@ + stream_sent(download_events(rest, end)));
        assert(bytes.flatten() =~= bytes[0] + bytes.drop_first().flatten());
        assert forall|i: int| 0 <= i < events.len() implies stream_failure(
            #[trigger] events[i],
        ) is None by {
            if i >= 2 {
                assert(events[i] == download_events(rest, end)[i - 2]);
            }
        }
    }
}

} // verus!
