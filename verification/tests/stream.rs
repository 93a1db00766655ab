use audio_convert_rs::client::{first_message, next_chunk};
use audio_convert_rs::ffmpeg::wrapper::FFMpegWrapper;
use audio_convert_rs::messages::{InitialMetadata, Payload, StreamConvertInput};
use audio_convert_rs::service::stream::{
    ReadOutcome, Received, Refusal, StreamAction, StreamConversion, StreamEvent, StreamStep,
    REPLY_SIZE,
};
use audio_convert_rs::service::{Code, Fault, Service};
use audio_convert_rs::ulaw::transcoder::ULaw;

fn service() -> Service {
    Service::new(FFMpegWrapper::new(Ok(())).unwrap(), ULaw::new().unwrap())
}

fn meta(format: i32) -> Received<()> {
    Received::Input(StreamConvertInput {
        payload: Some(Payload::Metadata(InitialMetadata {
            format,
            metadata: vec!["a=b".to_string()],
        })),
    })
}

fn chunk(bytes: Vec<u8>) -> Received<()> {
    Received::Input(StreamConvertInput { payload: Some(Payload::Chunk(bytes)) })
}

fn refused(first: Received<()>) -> String {
    match service().convert_stream(first) {
        Err(Refusal::Status(status)) => {
            assert_eq!(status.code, Code::InvalidArgument);
            status.message
        }
        _ => panic!("not refused"),
    }
}

fn accepted(format: i32) -> StreamConversion {
    match service().convert_stream(meta(format)) {
        Ok((stream, action)) => {
            assert!(matches!(action, StreamAction::MakeDir));
            stream
        }
        Err(_) => panic!("refused"),
    }
}

#[test]
fn first_message_decides() {
    assert_eq!(refused(Received::End), "Stream ended before metadata");
    assert_eq!(refused(chunk(vec![1])), "First message must be metadata");
    assert_eq!(
        refused(Received::Input(StreamConvertInput { payload: None })),
        "First message must be metadata"
    );
    assert_eq!(refused(meta(0)), "audio format unspecified");
    assert_eq!(refused(meta(9)), "invalid audio format: 9");
    match service().convert_stream(Received::Broken((14, "gone".to_string()))) {
        Err(Refusal::Upstream(err)) => assert_eq!(err, (14, "gone".to_string())),
        _ => panic!("error lost"),
    }
    let stream = accepted(2);
    assert_eq!(stream.metadata, vec!["a=b".to_string()]);
    assert_eq!(stream.step, StreamStep::MakeDir);
}

#[test]
fn client_names_are_understood() {
    for name in ["MP3", "M4A", "ULAW"] {
        let first: Received<()> = Received::Input(first_message(name));
        assert!(service().convert_stream(first).is_ok());
    }
    assert_eq!(refused(Received::Input(first_message("WAV"))), "audio format unspecified");
}

#[test]
fn upload_is_saved_whole() {
    let audio: Vec<u8> = (0..150_000u32).map(|i| (i % 251) as u8).collect();
    let mut stream = accepted(1);
    let (next, action) = stream.advance(StreamEvent::Done);
    assert!(matches!(action, StreamAction::CreateInput(name) if name == "input.wav"));
    let (next, action) = next.advance(StreamEvent::Done);
    assert!(matches!(action, StreamAction::Receive));
    stream = next;
    let mut saved = Vec::new();
    let mut offset = 0;
    while let Some((message, end)) = next_chunk(&audio, offset) {
        let (next, action) = stream.advance(StreamEvent::Message(Received::Input(message)));
        match action {
            StreamAction::Write(bytes) => saved.extend(bytes),
            _ => panic!("not written"),
        }
        let (next, action) = next.advance(StreamEvent::Done);
        assert!(matches!(action, StreamAction::Receive));
        stream = next;
        offset = end;
    }
    let (_, action) = stream.advance(StreamEvent::Message(Received::End));
    assert!(matches!(action, StreamAction::Sync));
    assert_eq!(saved, audio);
}

fn at_transcoder(format: i32, end: Received<()>) -> (StreamConversion, StreamAction) {
    let (stream, _) = accepted(format).advance(StreamEvent::Done);
    let (stream, _) = stream.advance(StreamEvent::Done);
    let (stream, _) = stream.advance(StreamEvent::Message(end));
    assert_eq!(stream.step, StreamStep::Sync);
    stream.advance(StreamEvent::Done)
}

#[test]
fn broken_stream_ends_the_input() {
    let (stream, action) = at_transcoder(1, Received::Broken(()));
    assert_eq!(stream.step, StreamStep::Transcode);
    match action {
        StreamAction::TranscodeFFMpeg { input, metadata, output } => {
            assert_eq!(input, "input.wav");
            assert_eq!(metadata, vec!["a=b".to_string()]);
            assert_eq!(output, "output.mp3");
        }
        _ => panic!("not transcoded"),
    }
}

#[test]
fn result_is_sent_in_pieces() {
    let (stream, _) = at_transcoder(2, Received::End);
    let (stream, action) = stream.advance(StreamEvent::Done);
    assert!(matches!(action, StreamAction::OpenOutput(name) if name == "output.m4a"));
    let (mut stream, action) = stream.advance(StreamEvent::Done);
    assert!(matches!(action, StreamAction::ReadOutput(size) if size == REPLY_SIZE));
    let mut sent = Vec::new();
    for piece in [vec![1u8, 2], vec![3]] {
        let (next, action) =
            stream.advance(StreamEvent::Output(ReadOutcome::Bytes(piece)));
        match action {
            StreamAction::Send(reply) => sent.extend(reply.chunk),
            _ => panic!("not sent"),
        }
        let (next, action) = next.advance(StreamEvent::Done);
        assert!(matches!(action, StreamAction::ReadOutput(65536)));
        stream = next;
    }
    let (stream, action) = stream.advance(StreamEvent::Output(ReadOutcome::Bytes(Vec::new())));
    assert!(matches!(action, StreamAction::Finish));
    assert_eq!(stream.step, StreamStep::Finished);
    assert_eq!(sent, vec![1, 2, 3]);
}

#[test]
fn unreadable_result_ends_quietly() {
    let (stream, _) = at_transcoder(1, Received::End);
    let (stream, _) = stream.advance(StreamEvent::Done);
    let (stream, _) = stream.advance(StreamEvent::Done);
    let (stream, action) = stream.advance(StreamEvent::Output(ReadOutcome::Failed));
    assert!(matches!(action, StreamAction::Finish));
    assert_eq!(stream.step, StreamStep::Finished);
}

#[test]
fn ulaw_ends_with_its_transcoder() {
    let (stream, action) = at_transcoder(3, Received::End);
    assert!(matches!(action, StreamAction::TranscodeULaw { input, chunk_size: 65536 } if input == "input.wav"));
    let (stream, action) = stream.advance(StreamEvent::Done);
    assert!(matches!(action, StreamAction::Finish));
    assert_eq!(stream.step, StreamStep::Finished);
}

#[test]
fn wrong_payload_is_reported() {
    let (stream, _) = accepted(1).advance(StreamEvent::Done);
    let (stream, _) = stream.advance(StreamEvent::Done);
    let (stream, action) = stream.advance(StreamEvent::Message(meta(1)));
    match action {
        StreamAction::Report(status) => {
            assert_eq!(status.code, Code::Internal);
            assert_eq!(status.message, "Error: Invalid payload in StreamConvertInput");
        }
        _ => panic!("not reported"),
    }
    assert_eq!(stream.step, StreamStep::Finished);
}

fn reported(stream: StreamConversion, fault: Fault) -> String {
    let (stream, action) = stream.advance(StreamEvent::Failed(fault));
    assert_eq!(stream.step, StreamStep::Finished);
    match action {
        StreamAction::Report(status) => {
            assert_eq!(status.code, Code::Internal);
            status.message
        }
        _ => panic!("not reported"),
    }
}

#[test]
fn failure_is_reported() {
    let at = |step: StreamStep| StreamConversion { step, ..accepted(1) };
    let path = || "\"/tmp/x/output.mp3\"".to_string();
    for (step, fault, text) in [
        (StreamStep::MakeDir, Fault::CreateDir, "Error: tmp dir create"),
        (StreamStep::MakeDir, Fault::DirPath, "Error: no tmp dir path"),
        (StreamStep::CreateInput, Fault::CreateFile, "Error: file create"),
        (StreamStep::Write, Fault::WriteChunk, "Error: write file"),
        (StreamStep::Sync, Fault::SyncFile, "Error: sync file"),
        (StreamStep::Transcode, Fault::Transcode, "Error: transcode"),
        (StreamStep::Transcode, Fault::Thread("gone".to_string()), "Error: gone"),
        (
            StreamStep::OpenOutput,
            Fault::OpenOutput(path()),
            "Error: can't open \"/tmp/x/output.mp3\"",
        ),
        (StreamStep::Send, Fault::Send, "Error: can't send"),
    ] {
        assert_eq!(reported(at(step), fault), text);
    }
}
