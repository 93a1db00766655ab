use audio_convert_rs::ffmpeg::wrapper::FFMpegWrapper;
use audio_convert_rs::messages::{AudioFormat, ConvertInput, ConvertReply};
use audio_convert_rs::service::convert::{answer, Conversion, ConvertAction, ConvertEvent};
use audio_convert_rs::service::{
    listen_address, prepare_input_file, prepare_output_file, read_format, validate_format, Code,
    Fault, Service, SrvError, Status,
};
use audio_convert_rs::ulaw::transcoder::ULaw;

fn service() -> Service {
    Service::new(FFMpegWrapper::new(Ok(())).unwrap(), ULaw::new().unwrap())
}

fn request(format: i32) -> ConvertInput {
    ConvertInput {
        format,
        metadata: vec!["title=x".to_string()],
        data: vec![1, 2, 3],
    }
}

fn started(format: i32) -> Conversion {
    match service().convert(request(format)) {
        Ok((conversion, action)) => {
            assert!(matches!(action, ConvertAction::MakeDir));
            conversion
        }
        Err(err) => panic!("{}", err.message()),
    }
}

#[test]
fn unspecified_format_is_refused() {
    match validate_format(AudioFormat::Unspecified) {
        Err(SrvError::InvalidArgument(text)) => assert_eq!(text, "audio format unspecified"),
        _ => panic!("accepted"),
    }
    assert!(validate_format(AudioFormat::Mp3).is_ok());
    assert!(validate_format(AudioFormat::M4a).is_ok());
    assert!(validate_format(AudioFormat::Ulaw).is_ok());
}

#[test]
fn unknown_format_is_refused() {
    match read_format(-17) {
        Err(SrvError::InvalidArgument(text)) => assert_eq!(text, "invalid audio format: -17"),
        _ => panic!("accepted"),
    }
    match service().convert(request(4)) {
        Err(err) => {
            assert_eq!(err.message(), "invalid audio format: 4");
            let status = Status::from(err);
            assert_eq!(status.code, Code::InvalidArgument);
            assert_eq!(status.message, "invalid audio format: 4");
        }
        Ok(_) => panic!("accepted"),
    }
}

#[test]
fn file_names() {
    assert_eq!(prepare_input_file(), "input.wav");
    assert_eq!(prepare_output_file(AudioFormat::Mp3), "output.mp3");
    assert_eq!(prepare_output_file(AudioFormat::M4a), "output.m4a");
    assert_eq!(prepare_output_file(AudioFormat::Ulaw), "output.ulaw");
}

#[test]
fn address() {
    assert_eq!(listen_address(50051), "[::]:50051");
}

#[test]
fn mp3_goes_through_ffmpeg() {
    let conversion = started(1);
    let (conversion, action) = conversion.advance(ConvertEvent::Done);
    match action {
        ConvertAction::Save { name, data } => {
            assert_eq!(name, "input.wav");
            assert_eq!(data, vec![1, 2, 3]);
        }
        _ => panic!("not saved"),
    }
    let (conversion, action) = conversion.advance(ConvertEvent::Done);
    match action {
        ConvertAction::TranscodeFFMpeg { input, metadata, output } => {
            assert_eq!(input, "input.wav");
            assert_eq!(metadata, vec!["title=x".to_string()]);
            assert_eq!(output, "output.mp3");
        }
        _ => panic!("not transcoded"),
    }
    let (conversion, action) = conversion.advance(ConvertEvent::Done);
    assert!(matches!(action, ConvertAction::Load(name) if name == "output.mp3"));
    let (conversion, action) = conversion.advance(ConvertEvent::Loaded(vec![9, 8]));
    assert!(matches!(action, ConvertAction::Reply(ConvertReply { data }) if data == vec![9, 8]));
    assert!(matches!(conversion, Conversion::Finished));
}

#[test]
fn ulaw_creates_its_output() {
    let conversion = started(3);
    let (conversion, _) = conversion.advance(ConvertEvent::Done);
    let (conversion, action) = conversion.advance(ConvertEvent::Done);
    assert!(matches!(action, ConvertAction::CreateOutput(name) if name == "output.ulaw"));
    let (conversion, action) = conversion.advance(ConvertEvent::Done);
    assert!(matches!(action, ConvertAction::TranscodeULaw(name) if name == "input.wav"));
    let (conversion, action) = conversion.advance(ConvertEvent::Done);
    assert!(matches!(action, ConvertAction::Load(name) if name == "output.ulaw"));
    let (conversion, action) = conversion.advance(ConvertEvent::Loaded(vec![255]));
    assert!(matches!(action, ConvertAction::Reply(reply) if reply.data == vec![255]));
    assert!(matches!(conversion, Conversion::Finished));
}

#[test]
fn first_failure_ends_conversion() {
    let (conversion, _) = started(2).advance(ConvertEvent::Done);
    let (conversion, action) = conversion.advance(ConvertEvent::Failed(Fault::WriteInput));
    assert!(matches!(conversion, Conversion::Finished));
    match action {
        ConvertAction::Refuse(err) => {
            let status = match answer(Err(err)) {
                Err(status) => status,
                Ok(_) => panic!("answered"),
            };
            assert_eq!(status.code, Code::Internal);
            assert_eq!(status.message, "error: file write");
        }
        _ => panic!("went on"),
    }
}

#[test]
fn failure_tells_the_step() {
    let format = AudioFormat::Mp3;
    for (conversion, fault, text) in [
        (started(1), Fault::CreateDir, "tmp dir create"),
        (started(1), Fault::DirPath, "no tmp dir path"),
        (Conversion::Save { format, metadata: Vec::new() }, Fault::CreateFile, "file create"),
        (Conversion::Save { format, metadata: Vec::new() }, Fault::WriteInput, "file write"),
        (Conversion::CreateOutput, Fault::CreateFile, "file create"),
        (Conversion::Transcode { format }, Fault::Transcode, "transcode"),
        (Conversion::Transcode { format }, Fault::Thread("gone".to_string()), "gone"),
        (
            Conversion::Load,
            Fault::ReadOutput("\"/tmp/x\"".to_string()),
            "failed to read file: \"/tmp/x\"",
        ),
    ] {
        let (conversion, action) = conversion.advance(ConvertEvent::Failed(fault));
        assert!(matches!(conversion, Conversion::Finished));
        match action {
            ConvertAction::Refuse(err) => assert_eq!(err.message(), text),
            _ => panic!("went on"),
        }
    }
}

#[test]
fn good_answer_is_kept() {
    match answer(Ok(ConvertReply { data: vec![5] })) {
        Ok(reply) => assert_eq!(reply.data, vec![5]),
        Err(_) => panic!("refused"),
    }
}

#[test]
fn fault_texts() {
    let quoted = || "\"/tmp/x/output.mp3\"".to_string();
    for (fault, text) in [
        (Fault::CreateDir, "tmp dir create"),
        (Fault::DirPath, "no tmp dir path"),
        (Fault::CreateFile, "file create"),
        (Fault::WriteInput, "file write"),
        (Fault::WriteChunk, "write file"),
        (Fault::SyncFile, "sync file"),
        (Fault::Transcode, "transcode"),
        (Fault::Thread("task 3 panicked".to_string()), "task 3 panicked"),
        (
            Fault::ReadOutput(quoted()),
            "failed to read file: \"/tmp/x/output.mp3\"",
        ),
        (Fault::OpenOutput(quoted()), "can't open \"/tmp/x/output.mp3\""),
        (Fault::Send, "can't send"),
    ] {
        let err = fault.error();
        assert_eq!(err.message(), text);
        assert_eq!(Status::in_stream(&err).message, format!("Error: {}", text));
        let status = Status::from(err);
        assert_eq!(status.code, Code::Internal);
        assert_eq!(status.message, format!("error: {}", text));
    }
}
