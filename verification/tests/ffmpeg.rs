use audio_convert_rs::ffmpeg::transcoder::{
    encoder_settings, filter_args, filter_spec, prepare_metadata, sink_frame_size, transcode,
    CodecFacts, LayoutChoice, Stage, TimeBase, Transcode, TranscodeError, TranscodeEvent,
    TranscodeStep,
};
use audio_convert_rs::ffmpeg::wrapper::FFMpegWrapper;

fn strings(texts: &[&str]) -> Vec<String> {
    texts.iter().map(|text| text.to_string()).collect()
}

fn facts(description: &str) -> CodecFacts {
    CodecFacts {
        description: description.to_string(),
        lists_layouts: true,
        global_header: true,
        channels: 2,
        rate: 22050,
        max_bit_rate: 7,
    }
}

const SECOND: TimeBase = TimeBase { num: 1, den: 1 };
const IN: TimeBase = TimeBase { num: 1, den: 22050 };
const OUT: TimeBase = TimeBase { num: 1, den: 44100 };

fn configured() -> Transcode {
    let mut run = transcode("input.wav", &strings(&["test=olia"]), "output.mp3");
    assert_eq!(run.step(), TranscodeStep::OpenInput);
    assert_eq!(run.input(), "input.wav");
    assert_eq!(run.output(), "output.mp3");
    assert_eq!(go(&mut run, TranscodeEvent::Done), TranscodeStep::OpenOutput);
    assert_eq!(go(&mut run, TranscodeEvent::Done), TranscodeStep::Setup);
    let event = TranscodeEvent::Configured { stream: 1, in_time_base: IN, out_time_base: OUT };
    assert_eq!(go(&mut run, event), TranscodeStep::WriteHeader);
    run
}

fn go(run: &mut Transcode, event: TranscodeEvent) -> TranscodeStep {
    match run.advance(event) {
        Ok(step) => step,
        Err(err) => panic!("{}", err.message()),
    }
}

#[test]
fn metadata_entries() {
    let pairs = prepare_metadata(&strings(&["test=olia", "copyright=smth...", "a=b=c", "d"]));
    assert_eq!(
        pairs.ok().unwrap(),
        vec![
            ("test".to_string(), "olia".to_string()),
            ("copyright".to_string(), "smth...".to_string()),
            ("a".to_string(), "b=c".to_string()),
            ("d".to_string(), String::new()),
        ]
    );
    for bad in ["", "=x", "="] {
        match prepare_metadata(&strings(&["a=b", bad])) {
            Err(err) => assert_eq!(err.message(), "Invalid metadata key-value pair"),
            Ok(_) => panic!("accepted"),
        }
    }
}

#[test]
fn settings_of_mp3() {
    let settings = encoder_settings(&facts("libmp3lame MP3 (MPEG audio layer 3)"));
    assert_eq!(settings.quality, Some(4));
    assert_eq!(settings.bit_rate, Some(50_000));
    assert_eq!(settings.rate, 22050);
    assert_eq!(settings.time_base, IN);
    assert_eq!(settings.layout, LayoutChoice::BestFor(2));
    assert_eq!(settings.max_bit_rate, 7);
    assert!(settings.global_header);
}

#[test]
fn settings_of_aac() {
    let mut facts = facts("AAC (Advanced Audio Coding)");
    facts.lists_layouts = false;
    facts.global_header = false;
    let settings = encoder_settings(&facts);
    assert_eq!(settings.quality, None);
    assert_eq!(settings.bit_rate, None);
    assert_eq!(settings.layout, LayoutChoice::Mono);
    assert!(!settings.global_header);
}

#[test]
fn filter_set_up() {
    assert_eq!(
        filter_args(TimeBase { num: 0, den: -1 }, 22050, "s16"),
        "time_base=0/-1:sample_rate=22050:sample_fmt=s16:channel_layout=0x2"
    );
    assert_eq!(sink_frame_size(Some(false), 1152), Some(1152));
    assert_eq!(sink_frame_size(Some(true), 1152), None);
    assert_eq!(sink_frame_size(None, 1152), None);
    assert_eq!(filter_spec(&strings(&["prog", "a", "b"])), "anull");
    assert_eq!(filter_spec(&strings(&["prog", "a", "b", "volume=2"])), "volume=2");
}

#[test]
fn initialisation() {
    assert!(FFMpegWrapper::new(Ok(())).is_ok());
    match FFMpegWrapper::new(Err("no codecs".to_string())) {
        Err(err) => assert_eq!(err.message(), "no codecs"),
        Ok(_) => panic!("accepted"),
    }
}

#[test]
fn full_course() {
    let mut run = configured();
    assert_eq!(
        run.pairs(),
        &vec![("test".to_string(), "olia".to_string())]
    );
    assert_eq!(go(&mut run, TranscodeEvent::Done), TranscodeStep::ReadPacket);
    let other = TranscodeEvent::Packet { stream: 0, time_base: SECOND };
    assert_eq!(go(&mut run, other), TranscodeStep::ReadPacket);
    assert_eq!(go(&mut run, TranscodeEvent::BadPacket), TranscodeStep::ReadPacket);
    let packet = TranscodeEvent::Packet { stream: 1, time_base: SECOND };
    assert_eq!(
        go(&mut run, packet),
        TranscodeStep::SendPacket { from: SECOND, to: IN }
    );
    let stage = Stage::Packets;
    assert_eq!(go(&mut run, TranscodeEvent::Done), TranscodeStep::ReceiveFrame(stage));
    assert_eq!(go(&mut run, TranscodeEvent::Received), TranscodeStep::AddFrame(stage));
    assert_eq!(go(&mut run, TranscodeEvent::Done), TranscodeStep::PullFrame(stage));
    assert_eq!(go(&mut run, TranscodeEvent::Received), TranscodeStep::SendFrame(stage));
    assert_eq!(go(&mut run, TranscodeEvent::Done), TranscodeStep::ReceivePacket(stage));
    assert_eq!(
        go(&mut run, TranscodeEvent::Received),
        TranscodeStep::WritePacket { stage, stream: 0, from: IN, to: OUT }
    );
    assert_eq!(go(&mut run, TranscodeEvent::Done), TranscodeStep::ReceivePacket(stage));
    assert_eq!(go(&mut run, TranscodeEvent::Nothing), TranscodeStep::PullFrame(stage));
    assert_eq!(go(&mut run, TranscodeEvent::Nothing), TranscodeStep::ReceiveFrame(stage));
    assert_eq!(go(&mut run, TranscodeEvent::Nothing), TranscodeStep::ReadPacket);
    assert_eq!(go(&mut run, TranscodeEvent::EndOfInput), TranscodeStep::SendDecoderEof);
    let stage = Stage::DecoderEof;
    assert_eq!(go(&mut run, TranscodeEvent::Done), TranscodeStep::ReceiveFrame(stage));
    assert_eq!(go(&mut run, TranscodeEvent::Received), TranscodeStep::AddFrame(stage));
    assert_eq!(go(&mut run, TranscodeEvent::Done), TranscodeStep::PullFrame(stage));
    assert_eq!(go(&mut run, TranscodeEvent::Nothing), TranscodeStep::ReceiveFrame(stage));
    assert_eq!(go(&mut run, TranscodeEvent::Nothing), TranscodeStep::FlushFilter);
    let stage = Stage::FilterEof;
    assert_eq!(go(&mut run, TranscodeEvent::Done), TranscodeStep::PullFrame(stage));
    assert_eq!(go(&mut run, TranscodeEvent::Received), TranscodeStep::SendFrame(stage));
    assert_eq!(go(&mut run, TranscodeEvent::Done), TranscodeStep::ReceivePacket(stage));
    assert_eq!(go(&mut run, TranscodeEvent::Nothing), TranscodeStep::PullFrame(stage));
    assert_eq!(go(&mut run, TranscodeEvent::Nothing), TranscodeStep::SendEncoderEof);
    let stage = Stage::EncoderEof;
    assert_eq!(go(&mut run, TranscodeEvent::Done), TranscodeStep::ReceivePacket(stage));
    assert_eq!(
        go(&mut run, TranscodeEvent::Received),
        TranscodeStep::WritePacket { stage, stream: 0, from: IN, to: OUT }
    );
    assert_eq!(go(&mut run, TranscodeEvent::Done), TranscodeStep::ReceivePacket(stage));
    assert_eq!(go(&mut run, TranscodeEvent::Nothing), TranscodeStep::WriteTrailer);
    assert_eq!(go(&mut run, TranscodeEvent::Done), TranscodeStep::Done);
}

#[test]
fn bad_metadata_stops_before_the_header() {
    let wrapper = FFMpegWrapper::new(Ok(())).ok().unwrap();
    let mut run = wrapper.transcode("a", &strings(&["x=y", "=z"]), "b");
    go(&mut run, TranscodeEvent::Done);
    go(&mut run, TranscodeEvent::Done);
    let event = TranscodeEvent::Configured { stream: 0, in_time_base: IN, out_time_base: OUT };
    assert!(matches!(run.advance(event), Err(TranscodeError::InvalidMetadata)));
    assert_eq!(run.step(), TranscodeStep::Failed);
}

#[test]
fn errors_stop_the_run() {
    let mut run = transcode("a", &Vec::new(), "b");
    match run.advance(TranscodeEvent::Failed("No such file".to_string())) {
        Err(err) => assert_eq!(err.message(), "No such file"),
        Ok(_) => panic!("went on"),
    }
    assert_eq!(run.step(), TranscodeStep::Failed);

    let mut run = configured();
    go(&mut run, TranscodeEvent::Done);
    go(&mut run, TranscodeEvent::Packet { stream: 1, time_base: SECOND });
    go(&mut run, TranscodeEvent::Done);
    go(&mut run, TranscodeEvent::Received);
    go(&mut run, TranscodeEvent::Done);
    match run.advance(TranscodeEvent::NoSink) {
        Err(err) => assert_eq!(err.message(), "Failed to get 'out' filter sink"),
        Ok(_) => panic!("went on"),
    }
    assert_eq!(run.step(), TranscodeStep::Failed);
}
