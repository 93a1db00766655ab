//! The laws of a conversion in one message, and of what clients are told.

use crate::ffmpeg::wrapper::FFMpegWrapper;
use crate::messages::{AudioFormat, ConvertInput, ConvertReply};
use crate::service::convert::{answer, Conversion, ConvertAction, ConvertEvent};
use crate::service::{
    listen_address, prepare_input_file, prepare_output_file, read_format, validate_format, Code,
    Fault, Service, SrvError, Status,
};
use crate::ulaw::transcoder::ULaw;
use vstd::prelude::*;

verus! {

/// A request is taken if, and only if, it asks for one of the three formats, by its
/// number; it then starts with that format, and with the metadata and the data given, and
/// asks for a directory. Else it is refused with what is wrong with the format.
pub proof fn law_request_taken(
    service: &Service,
    request: ConvertInput,
    res: Result<(Conversion, ConvertAction), SrvError>,
)
    requires
        call_ensures(Service::convert, (service, request), res),
    ensures
        res is Ok <==> request.format == 1 || request.format == 2 || request.format == 3,
        (res matches Ok((conversion, action)) ==> {
            &&& action is MakeDir
            &&& conversion matches Conversion::MakeDir { format, metadata, data }
            &&& metadata@ == request.metadata@
            &&& data@ == request.data@
            &&& format is Mp3 <==> request.format == 1
            &&& format is M4a <==> request.format == 2
            &&& format is Ulaw <==> request.format == 3
        }),
        (res matches Err(err) ==> err is InvalidArgument && err.text() == (if request.format == 0 {
            "audio format unspecified"@
        } else {
            "invalid audio format: "@ + crate::text::decimal(request.format as int)
        })),
{
}

/// Once the directory is there, all of the data is saved in the input file; then MP3 and
/// M4A are made by FFmpeg from that file, with the metadata given, and mu-law has its
/// output made first and is then converted from the same file; the result is loaded from
/// the file that it was written to.
pub proof fn law_convert_course(at: Conversion, res: (Conversion, ConvertAction))
    requires
        call_ensures(Conversion::advance, (at, ConvertEvent::Done), res),
    ensures
        match at {
            Conversion::MakeDir { format, metadata, data } => {
                &&& res.0 matches Conversion::Save { format: kept, metadata: entries }
                &&& kept == format
                &&& entries@ == metadata@
                &&& res.1 matches ConvertAction::Save { name, data: saved }
                &&& name@ == "input.wav"@
                &&& saved@ == data@
            },
            Conversion::Save { format, metadata } => match format {
                AudioFormat::Ulaw => res.0 is CreateOutput && (res.1 matches
                    ConvertAction::CreateOutput(name) && name@ == "output."@ + "ulaw"@),
                AudioFormat::Mp3 => res.0 == (Conversion::Transcode { format }) && (res.1 matches
                    ConvertAction::TranscodeFFMpeg { input, metadata: entries, output } && input@
                    == "input.wav"@ && entries@ == metadata@ && output@ == "output."@ + "mp3"@),
                AudioFormat::M4a => res.0 == (Conversion::Transcode { format }) && (res.1 matches
                    ConvertAction::TranscodeFFMpeg { input, metadata: entries, output } && input@
                    == "input.wav"@ && entries@ == metadata@ && output@ == "output."@ + "m4a"@),
                AudioFormat::Unspecified => true,
            },
            Conversion::CreateOutput => (res.0 matches Conversion::Transcode { format } && format
                is Ulaw) && (res.1 matches ConvertAction::TranscodeULaw(input) && input@
                == "input.wav"@),
            Conversion::Transcode { format } => res.0 is Load && (res.1 matches
                ConvertAction::Load(name) && match format {
                AudioFormat::Mp3 => name@ == "output."@ + "mp3"@,
                AudioFormat::M4a => name@ == "output."@ + "m4a"@,
                AudioFormat::Ulaw => name@ == "output."@ + "ulaw"@,
                AudioFormat::Unspecified => true,
            }),
            _ => true,
        },
{
}

/// What is loaded is the answer, byte for byte.
pub proof fn law_loaded_is_answered(
    at: Conversion,
    loaded: Vec<u8>,
    res: (Conversion, ConvertAction),
)
    requires
        call_ensures(Conversion::advance, (at, ConvertEvent::Loaded(loaded)), res),
    ensures
        res.0 is Finished,
        res.1 matches ConvertAction::Reply(reply) && reply.data@ == loaded@,
{
}

/// What a fault says.
pub open spec fn fault_says(fault: Fault) -> Seq<char> {
    match fault {
        Fault::CreateDir => "tmp dir create"@,
        Fault::DirPath => "no tmp dir path"@,
        Fault::CreateFile => "file create"@,
        Fault::WriteInput => "file write"@,
        Fault::WriteChunk => "write file"@,
        Fault::SyncFile => "sync file"@,
        Fault::Transcode => "transcode"@,
        Fault::Thread(reason) => reason@,
        Fault::ReadOutput(path) => "failed to read file: "@ + path@,
        Fault::OpenOutput(path) => "can't open "@ + path@,
        Fault::Send => "can't send"@,
    }
}

/// A fault ends the conversion, and the client is told of an internal error with the text
/// of the fault.
pub proof fn law_fault_told(
    at: Conversion,
    fault: Fault,
    res: (Conversion, ConvertAction),
    told: Result<ConvertReply, Status>,
)
    requires
        call_ensures(Conversion::advance, (at, ConvertEvent::Failed(fault)), res),
        res.1 is Refuse ==> call_ensures(answer, (Err(res.1->Refuse_0),), told),
    ensures
        res.0 is Finished,
        res.1 is Refuse,
        told matches Err(status) && status.code == Code::Internal && status.message@ == "error: "@
            + fault_says(fault),
{
}

/// At each place, each thing that can come of it is taken in.
pub proof fn law_convert_events_admitted(at: Conversion, event: ConvertEvent)
    requires
        match at {
            Conversion::MakeDir { format, .. } => !(format is Unspecified) && (event is Done || (
            event matches ConvertEvent::Failed(fault) && (fault is CreateDir || fault is DirPath))),
            Conversion::Save { format, .. } => !(format is Unspecified) && (event is Done || (
            event matches ConvertEvent::Failed(fault) && (fault is CreateFile || fault
                is WriteInput))),
            Conversion::CreateOutput => event is Done || (event matches ConvertEvent::Failed(fault)
                && fault is CreateFile),
            Conversion::Transcode { format } => !(format is Unspecified) && (event is Done || (
            event matches ConvertEvent::Failed(fault) && (fault is Transcode || (fault is Thread
                && !(format is Ulaw))))),
            Conversion::Load => event is Loaded || (event matches ConvertEvent::Failed(fault)
                && fault is ReadOutput),
            Conversion::Finished => false,
        },
    ensures
        call_requires(Conversion::advance, (at, event)),
{
}

/// A client is told what there is: a good answer as it is, a refusal with its text, and an
/// internal error marked as one.
pub proof fn law_answer(res: Result<ConvertReply, SrvError>, told: Result<ConvertReply, Status>)
    requires
        call_ensures(answer, (res,), told),
    ensures
        told is Ok <==> res is Ok,
        (res matches Ok(reply) ==> (told matches Ok(answered) && answered.data@ == reply.data@)),
        (res matches Err(SrvError::InvalidArgument(text)) ==> (told matches Err(status)
            && status.code == Code::InvalidArgument && status.message@ == text@)),
        (res matches Err(SrvError::Other(text)) ==> (told matches Err(status) && status.code
            == Code::Internal && status.message@ == "error: "@ + text@)),
{
}

/// What a failure is told as, for a request and within a stream.
pub proof fn law_status(err: SrvError, text: String, plain: Status, within: Status)
    requires
        call_ensures(SrvError::message, (&err,), text),
        call_ensures(Status::from, (err,), plain),
        call_ensures(Status::in_stream, (&err,), within),
    ensures
        err matches SrvError::InvalidArgument(said) ==> text@ == said@ && plain.code
            == Code::InvalidArgument && plain.message@ == said@,
        err matches SrvError::Other(said) ==> text@ == said@ && plain.code == Code::Internal
            && plain.message@ == "error: "@ + said@,
        within.code == Code::Internal,
        within.message@ == "Error: "@ + text@,
{
}

/// A fault is an internal error, and says what went wrong.
pub proof fn law_fault_error(fault: &Fault, err: SrvError)
    requires
        call_ensures(Fault::error, (fault,), err),
    ensures
        err matches SrvError::Other(text) && text@ == fault_says(*fault),
{
}

/// The numbers from one to three, and no others, name a format to convert to.
pub proof fn law_format_read(number: i32, res: Result<AudioFormat, SrvError>)
    requires
        call_ensures(read_format, (number,), res),
    ensures
        res is Ok <==> 1 <= number <= 3,
        number == 1 ==> res->Ok_0 is Mp3,
        number == 2 ==> res->Ok_0 is M4a,
        number == 3 ==> res->Ok_0 is Ulaw,
        res is Err ==> res->Err_0 is InvalidArgument,
        number == 0 ==> res->Err_0.text() == "audio format unspecified"@,
        number < 0 || number > 3 ==> res->Err_0.text() == "invalid audio format: "@
            + crate::text::decimal(number as int),
{
}

/// Every format is good but the one that stands for none.
pub proof fn law_format_valid(format: AudioFormat, res: Result<(), SrvError>)
    requires
        call_ensures(validate_format, (format,), res),
    ensures
        res is Ok <==> !(format is Unspecified),
        res is Err ==> res->Err_0 is InvalidArgument && res->Err_0.text()
            == "audio format unspecified"@,
{
}

/// The files of a conversion have fixed names; that of the result tells its format.
pub proof fn law_file_names(input: String, format: AudioFormat, output: String)
    requires
        call_ensures(prepare_input_file, (), input),
        call_ensures(prepare_output_file, (format,), output),
    ensures
        input@ == "input.wav"@,
        format is Mp3 ==> output@ == "output."@ + "mp3"@,
        format is M4a ==> output@ == "output."@ + "m4a"@,
        format is Ulaw ==> output@ == "output."@ + "ulaw"@,
{
}

/// Every format that can be asked for has a file for its result.
pub proof fn law_output_file_named(format: AudioFormat)
    requires
        !(format is Unspecified),
    ensures
        call_requires(prepare_output_file, (format,)),
{
}

/// The service listens on all interfaces, at the port given.
pub proof fn law_listen_address(port: u16, res: String)
    requires
        call_ensures(listen_address, (port,), res),
    ensures
        res@.len() > 5,
        res@.take(5) == "[::]:"@,
        crate::laws::text::is_number(res@.skip(5)),
        crate::laws::text::value_of(res@.skip(5)) == port,
{
    reveal_strlit("[::]:");
    crate::laws::text::lemma_decimal_text(port as int);
    assert(res@.take(5) =~= "[::]:"@);
    assert(res@.skip(5) =~= crate::text::decimal(port as int));
}

/// A service has the transcoders that it was given.
pub proof fn law_service_made(transcoder: FFMpegWrapper, ulaw: ULaw, res: Service)
    requires
        call_ensures(Service::new, (transcoder, ulaw), res),
    ensures
        res.transcoder == transcoder,
        res.ulaw_transcoder == ulaw,
{
}

} // verus!
