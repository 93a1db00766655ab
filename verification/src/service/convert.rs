//! A conversion that takes its input in one message and answers in one.

use crate::messages::{AudioFormat, ConvertInput, ConvertReply};
use crate::service::{
    prepare_input_file, prepare_output_file, read_format, Fault, Service, SrvError, Status,
};
use vstd::prelude::*;

verus! {

/// A conversion on its way, by what it waits for.
pub enum Conversion {
    /// A temporary directory.
    MakeDir { format: AudioFormat, metadata: Vec<String>, data: Vec<u8> },
    /// The input to be saved.
    Save { format: AudioFormat, metadata: Vec<String> },
    /// The file for the result, which only mu-law has made beforehand.
    CreateOutput,
    /// The transcoder.
    Transcode { format: AudioFormat },
    /// The result to be read.
    Load,
    /// Nothing.
    Finished,
}

/// What has come of the thing that a conversion waited for.
pub enum ConvertEvent {
    /// It is done.
    Done,
    /// The result, read back.
    Loaded(Vec<u8>),
    /// It failed.
    Failed(Fault),
}

/// What a conversion asks for next.
pub enum ConvertAction {
    /// Make a temporary directory.
    MakeDir,
    /// Save `data` in the file `name` of the directory.
    Save { name: String, data: Vec<u8> },
    /// Create the file of this name in the directory.
    CreateOutput(String),
    /// Convert the file of this name to mu-law, into the file just created.
    TranscodeULaw(String),
    /// Convert the file `input` to the file `output` and set the metadata.
    TranscodeFFMpeg { input: String, metadata: Vec<String>, output: String },
    /// Read the file of this name.
    Load(String),
    /// Answer with this.
    Reply(ConvertReply),
    /// Answer with this failure.
    Refuse(SrvError),
}

/// `err` refuses a request for the format with this number.
pub open spec fn refuses(err: SrvError, number: i32) -> bool {
    err is InvalidArgument && err.text() == crate::service::format_refusal(number)
}

impl Service {
    /// Starts to convert what `request` holds, with the first thing that this asks for.
    /// The format that the request names has to be one to convert to.
    pub fn convert(&self, request: ConvertInput) -> (res: Result<
        (Conversion, ConvertAction),
        SrvError,
    >)
        ensures
            match crate::service::wanted_format(request.format) {
                Some(format) => res == Ok::<(Conversion, ConvertAction), SrvError>(
                    (
                        Conversion::MakeDir {
                            format,
                            metadata: request.metadata,
                            data: request.data,
                        },
                        ConvertAction::MakeDir,
                    ),
                ),
                None => res matches Err(err) && refuses(err, request.format),
            },
    {
        match read_format(request.format) {
            Err(err) => Err(err),
            Ok(format) => {
                let ConvertInput { format: _, metadata, data } = request;
                Ok((Conversion::MakeDir { format, metadata, data }, ConvertAction::MakeDir))
            },
        }
    }
}

impl Conversion {
    /// The formats in the conversion are ones to convert to.
    pub open spec fn wf(&self) -> bool {
        match self {
            Conversion::MakeDir { format, .. } => *format != AudioFormat::Unspecified,
            Conversion::Save { format, .. } => *format != AudioFormat::Unspecified,
            Conversion::Transcode { format } => *format != AudioFormat::Unspecified,
            _ => true,
        }
    }

    /// What the conversion waits for can fail with `fault`. Only FFmpeg has a thread of
    /// its own.
    pub open spec fn fails_with(&self, fault: Fault) -> bool {
        match self {
            Conversion::MakeDir { .. } => fault is CreateDir || fault is DirPath,
            Conversion::Save { .. } => fault is CreateFile || fault is WriteInput,
            Conversion::CreateOutput => fault is CreateFile,
            Conversion::Transcode { format } => fault is Transcode || (fault is Thread && *format
                != AudioFormat::Ulaw),
            Conversion::Load => fault is ReadOutput,
            Conversion::Finished => false,
        }
    }

    /// `event` answers what the conversion waits for.
    pub open spec fn answered_by(&self, event: ConvertEvent) -> bool {
        match event {
            ConvertEvent::Done => !(self is Load || self is Finished),
            ConvertEvent::Loaded(_) => self is Load,
            ConvertEvent::Failed(fault) => self.fails_with(fault),
        }
    }

    /// Where the conversion stands after `event`. The one after `Save` and the one after
    /// `CreateOutput` ask for the transcoder.
    pub open spec fn after(self, event: ConvertEvent) -> Conversion {
        match event {
            ConvertEvent::Failed(_) => Conversion::Finished,
            ConvertEvent::Loaded(_) => Conversion::Finished,
            ConvertEvent::Done => match self {
                Conversion::MakeDir { format, metadata, data } => Conversion::Save {
                    format,
                    metadata,
                },
                Conversion::Save { format, metadata } => if format == AudioFormat::Ulaw {
                    Conversion::CreateOutput
                } else {
                    Conversion::Transcode { format }
                },
                Conversion::CreateOutput => Conversion::Transcode { format: AudioFormat::Ulaw },
                Conversion::Transcode { .. } => Conversion::Load,
                _ => Conversion::Finished,
            },
        }
    }

    /// `action` is what the conversion asks for after `event`.
    pub open spec fn asks(self, event: ConvertEvent, action: ConvertAction) -> bool {
        match event {
            ConvertEvent::Failed(fault) => action matches ConvertAction::Refuse(err)
                && err is Other && err.text() == fault.text(),
            ConvertEvent::Loaded(data) => action == ConvertAction::Reply(ConvertReply { data }),
            ConvertEvent::Done => match self {
                Conversion::MakeDir { data: input, .. } => action matches ConvertAction::Save {
                    name,
                    data,
                } && name@ == crate::service::input_file() && data == input,
                Conversion::Save { format, metadata: entries } => if format == AudioFormat::Ulaw {
                    action matches ConvertAction::CreateOutput(name) && name@
                        == crate::service::output_file(format)
                } else {
                    action matches ConvertAction::TranscodeFFMpeg { input, metadata, output }
                        && input@ == crate::service::input_file() && metadata == entries && output@
                        == crate::service::output_file(format)
                },
                Conversion::CreateOutput => action matches ConvertAction::TranscodeULaw(input)
                    && input@ == crate::service::input_file(),
                Conversion::Transcode { format } => action matches ConvertAction::Load(name)
                    && name@ == crate::service::output_file(format),
                _ => true,
            },
        }
    }

    /// Takes in what has come of the thing that the conversion waited for, and says what
    /// to do next.
    pub fn advance(self, event: ConvertEvent) -> (res: (Conversion, ConvertAction))
        requires
            self.wf(),
            self.answered_by(event),
        ensures
            res.0 == self.after(event),
            res.0.wf(),
            self.asks(event, res.1),
    {
        match event {
            ConvertEvent::Failed(fault) => (
                Conversion::Finished,
                ConvertAction::Refuse(fault.error()),
            ),
            ConvertEvent::Loaded(data) => (
                Conversion::Finished,
                ConvertAction::Reply(ConvertReply { data }),
            ),
            ConvertEvent::Done => match self {
                Conversion::MakeDir { format, metadata, data } => (
                    Conversion::Save { format, metadata },
                    ConvertAction::Save { name: prepare_input_file(), data },
                ),
                Conversion::Save { format, metadata } => {
                    let output = prepare_output_file(format);
                    if format == AudioFormat::Ulaw {
                        (Conversion::CreateOutput, ConvertAction::CreateOutput(output))
                    } else {
                        let input = prepare_input_file();
                        (
                            Conversion::Transcode { format },
                            ConvertAction::TranscodeFFMpeg { input, metadata, output },
                        )
                    }
                },
                Conversion::CreateOutput => (
                    Conversion::Transcode { format: AudioFormat::Ulaw },
                    ConvertAction::TranscodeULaw(prepare_input_file()),
                ),
                Conversion::Transcode { format } => (
                    Conversion::Load,
                    ConvertAction::Load(prepare_output_file(format)),
                ),
                _ => vstd::pervasive::unreached(),
            },
        }
    }
}

/// What a client is told in the end: the converted file, or the failure.
pub fn answer(res: Result<ConvertReply, SrvError>) -> (out: Result<ConvertReply, Status>)
    ensures
        match res {
            Ok(reply) => out == Ok::<ConvertReply, Status>(reply),
            Err(err) => out matches Err(status) && status.tells(err),
        },
{
    match res {
        Ok(reply) => Ok(reply),
        Err(err) => Err(Status::from(err)),
    }
}

/// A request that is refused for its format is answered as one at fault, with a text
/// that says what is wrong with the format.
pub proof fn law_refusal_answered(number: i32, err: SrvError, status: Status)
    requires
        refuses(err, number),
        status.tells(err),
    ensures
        status.code == crate::service::Code::InvalidArgument,
        status.message@ == crate::service::format_refusal(number),
{
}

/// A request that a fault has stopped is answered as an internal error, with the text of
/// the fault.
pub proof fn law_fault_answered(
    at: Conversion,
    fault: Fault,
    action: ConvertAction,
    status: Status,
)
    requires
        at.asks(ConvertEvent::Failed(fault), action),
        action matches ConvertAction::Refuse(err) && status.tells(err),
    ensures
        status.code == crate::service::Code::Internal,
        status.message@ == "error: "@ + fault.text(),
{
}

/// The text of the error of a conversion that a fault has stopped tells what it waited
/// for.
pub proof fn law_convert_failure_text(
    at: Conversion,
    fault: Fault,
    action: ConvertAction,
)
    requires
        at.answered_by(ConvertEvent::Failed(fault)),
        at.asks(ConvertEvent::Failed(fault), action),
    ensures
        action matches ConvertAction::Refuse(err) && match at {
            Conversion::MakeDir { .. } => err.text() == "tmp dir create"@ || err.text()
                == "no tmp dir path"@,
            Conversion::Save { .. } => err.text() == "file create"@ || err.text() == "file write"@,
            Conversion::CreateOutput => err.text() == "file create"@,
            Conversion::Transcode { format } => err.text() == "transcode"@ || (format
                != AudioFormat::Ulaw && (fault matches Fault::Thread(reason) && err.text()
                == reason@)),
            Conversion::Load => fault matches Fault::ReadOutput(path) && err.text()
                == "failed to read file: "@ + path@,
            Conversion::Finished => false,
        },
{
}

/// How many things have to be done before a conversion can answer with its result.
pub open spec fn steps_left(at: Conversion) -> nat {
    match at {
        Conversion::MakeDir { format, .. } => if format == AudioFormat::Ulaw { 5 } else { 4 },
        Conversion::Save { format, .. } => if format == AudioFormat::Ulaw { 4 } else { 3 },
        Conversion::CreateOutput => 3,
        Conversion::Transcode { .. } => 2,
        Conversion::Load => 1,
        Conversion::Finished => 0,
    }
}

/// Each event answers what the conversion waits for when it comes.
pub open spec fn convert_run_valid(at: Conversion, events: Seq<ConvertEvent>) -> bool
    decreases events.len(),
{
    events.len() > 0 ==> at.answered_by(events[0]) && convert_run_valid(
        at.after(events[0]),
        events.drop_first(),
    )
}

/// Where a conversion stands after all of the events.
pub open spec fn convert_run(at: Conversion, events: Seq<ConvertEvent>) -> Conversion
    decreases events.len(),
{
    if events.len() == 0 {
        at
    } else {
        convert_run(at.after(events[0]), events.drop_first())
    }
}

/// A conversion ends, and in one of two ways: with the result, once everything has been
/// done and the result has been read back, or with the first failure.
pub proof fn law_convert_ends(at: Conversion, events: Seq<ConvertEvent>)
    requires
        convert_run_valid(at, events),
    ensures
        events.len() <= steps_left(at),
        forall|i: int|
            0 <= i < events.len() - 1 ==> (#[trigger] events[i]) is Done,
        events.len() > 0 && events.last() is Loaded ==> events.len() == steps_left(at),
        convert_run(at, events) is Finished && events.len() > 0 ==> events.last() is Loaded
            || events.last() is Failed,
        events.len() == steps_left(at) ==> convert_run(at, events) is Finished,
    decreases events.len(),
{
    if events.len() > 0 {
        let next = at.after(events[0]);
        let rest = events.drop_first();
        assert(convert_run_valid(next, rest));
        law_convert_ends(next, rest);
        assert forall|i: int| 0 <= i < events.len() - 1 implies (#[trigger] events[i]) is Done by {
            if i > 0 {
                assert(events[i] == rest[i - 1]);
            }
        }
        if rest.len() > 0 {
            assert(events.last() == rest.last());
        }
    }
}

} // verus!
