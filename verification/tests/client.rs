use audio_convert_rs::client::{
    append_reply, check_health, convert_request, first_message, next_chunk, output_name,
    server_url, CHUNK_SIZE,
};
use audio_convert_rs::messages::{AudioFormat, Payload, StreamFileReply};
use audio_convert_rs::service::convert::{Conversion, ConvertAction, ConvertEvent};
use audio_convert_rs::service::stream::{
    ReadOutcome, Received, StreamAction, StreamConversion, StreamEvent, StreamStep,
};
use audio_convert_rs::DEFAULT_PORT;

#[test]
fn chunks_cover_the_file() {
    for len in [0usize, 1, CHUNK_SIZE - 1, CHUNK_SIZE, CHUNK_SIZE + 1, 3 * CHUNK_SIZE + 5] {
        let audio: Vec<u8> = (0..len).map(|i| (i % 253) as u8).collect();
        let mut sent = Vec::new();
        let mut offset = 0;
        let mut count = 0;
        while let Some((message, end)) = next_chunk(&audio, offset) {
            match message.payload {
                Some(Payload::Chunk(chunk)) => {
                    assert!(!chunk.is_empty() && chunk.len() <= CHUNK_SIZE);
                    assert!(chunk.len() == CHUNK_SIZE || end == len);
                    sent.extend(chunk);
                }
                _ => panic!("no chunk"),
            }
            offset = end;
            count += 1;
        }
        assert_eq!(sent, audio);
        assert_eq!(count, (len + CHUNK_SIZE - 1) / CHUNK_SIZE);
    }
    assert!(next_chunk(&vec![1], 2).is_none());
}

#[test]
fn requests() {
    let request = convert_request("ULAW", vec![1, 2]);
    assert_eq!(request.format, 3);
    assert_eq!(
        request.metadata,
        vec!["test=olia".to_string(), "copyright=smth...".to_string()]
    );
    assert_eq!(request.data, vec![1, 2]);
    assert_eq!(convert_request("wav", Vec::new()).format, 0);
    match first_message("M4A").payload {
        Some(Payload::Metadata(meta)) => {
            assert_eq!(meta.format, 2);
            assert_eq!(meta.metadata.len(), 2);
        }
        _ => panic!("no metadata"),
    }
}

#[test]
fn replies_add_up() {
    let mut audio = vec![1u8];
    let reply = |chunk: Vec<u8>| -> Result<StreamFileReply, String> { Ok(StreamFileReply { chunk }) };
    assert!(append_reply(&mut audio, reply(vec![2, 3])).is_ok());
    assert!(append_reply(&mut audio, reply(Vec::new())).is_ok());
    assert_eq!(
        append_reply(&mut audio, Err("gone".to_string())),
        Err("gone".to_string())
    );
    assert_eq!(audio, vec![1, 2, 3]);
}

#[test]
fn names_and_addresses() {
    assert_eq!(output_name("1.wav", "MP3"), "1.wav.mp3");
    assert_eq!(output_name("a", "Ul\u{c4}W-9"), "a.ul\u{c4}w-9");
    assert_eq!(server_url(DEFAULT_PORT), "http://[::]:50051");
    assert_eq!(server_url(0), "http://[::]:0");
}

#[test]
fn health() {
    assert!(check_health(1).is_ok());
    for status in [0, 2, 3, -1] {
        assert_eq!(check_health(status), Err("Service is not healthy".to_string()));
    }
}

#[test]
fn stream_and_single_call_agree() {
    let audio: Vec<u8> = (0..CHUNK_SIZE + 7).map(|i| (i % 251) as u8).collect();
    let metadata = vec!["a=b".to_string()];
    let format = AudioFormat::M4a;

    let at = Conversion::MakeDir { format, metadata: metadata.clone(), data: audio.clone() };
    let (at, save) = at.advance(ConvertEvent::Done);
    let (at, single) = at.advance(ConvertEvent::Done);
    let (at, load) = at.advance(ConvertEvent::Done);
    let result: Vec<u8> = audio.iter().rev().copied().collect();
    let (_, reply) = at.advance(ConvertEvent::Loaded(result.clone()));

    let at = StreamConversion { format, metadata, step: StreamStep::MakeDir };
    let (at, create) = at.advance(StreamEvent::Done);
    let (mut at, _) = at.advance(StreamEvent::Done);
    let mut saved = Vec::new();
    let mut offset = 0;
    while let Some((message, end)) = next_chunk(&audio, offset) {
        let (next, action) = at.advance(StreamEvent::Message(Received::Input(message)));
        match action {
            StreamAction::Write(chunk) => saved.extend(chunk),
            _ => panic!("nothing to write"),
        }
        at = next.advance(StreamEvent::Done).0;
        offset = end;
    }
    let (at, _) = at.advance(StreamEvent::Message(Received::End));
    let (at, streamed) = at.advance(StreamEvent::Done);
    let (at, open) = at.advance(StreamEvent::Done);
    let (mut at, _) = at.advance(StreamEvent::Done);
    let mut collected = Vec::new();
    for piece in result.chunks(1000) {
        let (next, action) = at.advance(StreamEvent::Output(ReadOutcome::Bytes(piece.to_vec())));
        match action {
            StreamAction::Send(reply) => {
                let reply: Result<StreamFileReply, String> = Ok(reply);
                assert!(append_reply(&mut collected, reply).is_ok());
            }
            _ => panic!("nothing to send"),
        }
        at = next.advance(StreamEvent::Done).0;
    }

    match (save, create) {
        (ConvertAction::Save { name, data }, StreamAction::CreateInput(other)) => {
            assert_eq!(name, other);
            assert_eq!(data, saved);
        }
        _ => panic!("no input"),
    }
    match (single, streamed) {
        (
            ConvertAction::TranscodeFFMpeg { input, metadata, output },
            StreamAction::TranscodeFFMpeg { input: from, metadata: entries, output: to },
        ) => assert_eq!((input, metadata, output), (from, entries, to)),
        _ => panic!("no transcoder"),
    }
    match (load, open) {
        (ConvertAction::Load(name), StreamAction::OpenOutput(other)) => assert_eq!(name, other),
        _ => panic!("no output"),
    }
    match reply {
        ConvertAction::Reply(reply) => assert_eq!(reply.data, collected),
        _ => panic!("no reply"),
    }
}
