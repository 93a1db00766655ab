use audio_convert_rs::ulaw::transcoder::{
    block_action, check_header, encode_block, fill_buffer, load_block, linear_to_mulaw, ULaw, ULawAction, ULawError, ULawEvent, ULawStep,
};

fn wav(channels: u16, bits: u16, samples: &[i16]) -> Vec<u8> {
    let spec = hound::WavSpec {
        channels,
        sample_rate: 16000,
        bits_per_sample: bits,
        sample_format: hound::SampleFormat::Int,
    };
    let mut bytes = std::io::Cursor::new(Vec::new());
    let mut writer = hound::WavWriter::new(&mut bytes, spec).unwrap();
    for sample in samples {
        writer.write_sample(*sample).unwrap();
    }
    writer.finalize().unwrap();
    bytes.into_inner()
}

#[test]
fn mulaw_bytes() {
    for (pcm, byte) in [
        (0i16, 255u8),
        (-1, 127),
        (1000, 206),
        (-1000, 78),
        (32767, 128),
        (-32768, 0),
        (3, 255),
        (4, 254),
    ] {
        assert_eq!(linear_to_mulaw(pcm), byte, "{}", pcm);
    }
}

#[test]
fn mulaw_formula() {
    for pcm in i16::MIN..=i16::MAX {
        let size = if pcm < 0 { -(pcm as i32) - 1 } else { pcm as i32 };
        let magnitude = (size / 4 + 33).min(8191);
        let mut segment = 1;
        while magnitude >= 32 << segment {
            segment += 1;
        }
        let sign = if pcm >= 0 { 128 } else { 0 };
        let byte = sign + 16 * (8 - segment) + 15 - (magnitude >> segment) % 16;
        assert_eq!(linear_to_mulaw(pcm) as i32, byte, "{}", pcm);
    }
}

#[test]
fn mulaw_keeps_the_order() {
    let level = |pcm: i16| -> i32 {
        let byte = linear_to_mulaw(pcm) as i32;
        if byte >= 128 {
            255 - byte
        } else {
            byte - 128
        }
    };
    for pcm in i16::MIN..i16::MAX {
        assert!(level(pcm) <= level(pcm + 1), "{}", pcm);
    }
    assert_eq!((level(i16::MIN), level(-1)), (-128, -1));
    assert_eq!((level(0), level(i16::MAX)), (0, 127));
}

#[test]
fn block_is_cut_to_what_is_wanted() {
    assert_eq!(encode_block(&vec![0, -1, 1000], 2), vec![255, 127]);
    assert_eq!(encode_block(&vec![0, -1, 1000], 0), Vec::<u8>::new());
}

#[test]
fn buffer_is_padded_with_silence() {
    let bytes = wav(1, 16, &[1, -2, 3, -4, 5]);
    let mut reader = hound::WavReader::new(&bytes[..]).unwrap();
    let mut buffer = vec![7i16; 4];
    assert!(matches!(fill_buffer(&mut reader, &mut buffer, 3), Ok(3)));
    assert_eq!(buffer, vec![1, -2, 3, 7]);
    assert!(matches!(fill_buffer(&mut reader, &mut buffer, 3), Ok(2)));
    assert_eq!(buffer, vec![-4, 5, 0, 7]);
    assert!(matches!(fill_buffer(&mut reader, &mut buffer, 3), Ok(0)));
    assert_eq!(buffer, vec![-4, 5, 0, 7]);
}

#[test]
fn truncated_file_is_noticed() {
    let mut bytes = wav(1, 16, &[1, -2, 3]);
    bytes.truncate(bytes.len() - 2);
    let mut reader = hound::WavReader::new(&bytes[..]).unwrap();
    let mut buffer = vec![0i16; 8];
    assert!(matches!(
        fill_buffer(&mut reader, &mut buffer, 8),
        Err(ULawError::BadSample)
    ));
}

#[test]
fn whole_file_is_converted() {
    let samples: Vec<i16> = (0..10).map(|i| i * 1000).collect();
    let bytes = wav(1, 16, &samples);
    let (mut stream, action) = ULaw::new().unwrap().stream_transcode("x.wav", &bytes).ok().unwrap();
    match action {
        ULawAction::CreateResampler { input_rate, output_rate, frames, channels } => {
            assert_eq!((input_rate, output_rate), (16000, 8000));
            assert_eq!((frames, channels), (1024, 1));
        }
        _ => panic!("no resampler"),
    }
    assert_eq!(stream.step(), ULawStep::CreateResampler);
    let mut handed: Vec<i16> = Vec::new();
    let mut written: Vec<u8> = Vec::new();
    let mut action = stream.advance(ULawEvent::ResamplerReady(4)).ok().unwrap();
    let mut blocks = Vec::new();
    loop {
        let event = match action {
            ULawAction::Resample(filled) => {
                blocks.push(filled);
                handed.extend(&stream.block()[..filled]);
                assert!(stream.block()[filled..].iter().all(|s| *s == 0));
                assert_eq!(stream.block().len(), 4);
                let pcm: Vec<i16> = stream.block().iter().step_by(2).copied().collect();
                ULawEvent::Resampled { pcm, wanted: (filled + 1) / 2 }
            }
            ULawAction::Write(bytes) => {
                written.extend(bytes);
                ULawEvent::Written
            }
            ULawAction::Flush => ULawEvent::Flushed,
            ULawAction::Finish => break,
            ULawAction::CreateResampler { .. } => panic!("a second resampler"),
        };
        action = stream.advance(event).ok().unwrap();
    }
    assert_eq!(stream.step(), ULawStep::Done);
    assert_eq!(handed, samples);
    assert_eq!(blocks, vec![4, 4, 2]);
    let expected: Vec<u8> = samples.iter().step_by(2).map(|s| linear_to_mulaw(*s)).collect();
    assert_eq!(written, expected);
}

#[test]
fn output_is_flushed_once_after_the_last_byte() {
    for total in 0..12usize {
        let samples: Vec<i16> = (0..total).map(|i| i as i16).collect();
        let bytes = wav(1, 16, &samples);
        let (mut stream, _) = ULaw::new().unwrap().stream_transcode("x.wav", &bytes).ok().unwrap();
        let mut action = stream.advance(ULawEvent::ResamplerReady(4)).ok().unwrap();
        let (mut blocks, mut wanted_total, mut written, mut flushes) = (0, 0, 0, 0);
        loop {
            let event = match action {
                ULawAction::Resample(filled) => {
                    blocks += 1;
                    wanted_total += filled;
                    ULawEvent::Resampled { pcm: stream.block().clone(), wanted: filled }
                }
                ULawAction::Write(bytes) => {
                    assert_eq!(flushes, 0);
                    written += bytes.len();
                    ULawEvent::Written
                }
                ULawAction::Flush => {
                    flushes += 1;
                    ULawEvent::Flushed
                }
                ULawAction::Finish => break,
                ULawAction::CreateResampler { .. } => panic!("a second resampler"),
            };
            action = stream.advance(event).ok().unwrap();
        }
        assert_eq!((written, wanted_total), (total, total));
        assert_eq!(blocks, (total + 3) / 4);
        assert_eq!(flushes, 1);
    }
}

#[test]
fn output_lasts_as_long_as_the_file() {
    for total in 0..30usize {
        let samples: Vec<i16> = (0..total).map(|i| i as i16).collect();
        let bytes = wav(1, 16, &samples);
        let (mut stream, _) = ULaw::new().unwrap().stream_transcode("x.wav", &bytes).ok().unwrap();
        let mut action = stream.advance(ULawEvent::ResamplerReady(6)).ok().unwrap();
        let mut written = 0;
        loop {
            let event = match action {
                ULawAction::Resample(filled) => {
                    let pcm: Vec<i16> = stream.block().iter().step_by(2).copied().collect();
                    ULawEvent::Resampled { pcm, wanted: (filled + 1) / 2 }
                }
                ULawAction::Write(bytes) => {
                    written += bytes.len();
                    ULawEvent::Written
                }
                ULawAction::Flush => ULawEvent::Flushed,
                ULawAction::Finish => break,
                ULawAction::CreateResampler { .. } => panic!("a second resampler"),
            };
            action = stream.advance(event).ok().unwrap();
        }
        assert!(total * 8000 <= written * 16000);
        assert!(written <= (total * 8000 + 15999) / 16000 + 1);
        if total % 6 == 0 {
            assert_eq!(written * 16000, total * 8000);
        }
    }
}

#[test]
fn eight_bit_files_are_read() {
    let bytes = wav(1, 8, &[-128, 0, 127]);
    let mut reader = hound::WavReader::new(&bytes[..]).unwrap();
    let mut buffer = vec![0i16; 3];
    assert!(matches!(fill_buffer(&mut reader, &mut buffer, 3), Ok(3)));
    assert_eq!(buffer, vec![-128, 0, 127]);
}

#[test]
fn empty_file_is_only_flushed() {
    let bytes = wav(1, 16, &[]);
    let (mut stream, _) = ULaw::new().unwrap().stream_transcode("x.wav", &bytes).ok().unwrap();
    assert!(matches!(
        stream.advance(ULawEvent::ResamplerReady(4)),
        Ok(ULawAction::Flush)
    ));
    assert!(matches!(stream.advance(ULawEvent::Flushed), Ok(ULawAction::Finish)));
}

#[test]
fn refused_inputs() {
    let ulaw = ULaw::new().unwrap();
    match ulaw.stream_transcode("x.wav", b"no wave file") {
        Err(err) => assert_eq!(err.message(), "Cannot open input wav: x.wav"),
        Ok(_) => panic!("accepted"),
    }
    let stereo = wav(2, 16, &[1, 2]);
    match ulaw.stream_transcode("x.wav", &stereo) {
        Err(err) => assert_eq!(
            err.message(),
            "Only mono WAV files are supported, found 2 channels"
        ),
        Ok(_) => panic!("accepted"),
    }
}

#[test]
fn failures_are_told_apart() {
    let bytes = wav(1, 16, &[1, 2, 3]);
    let ulaw = ULaw::new().unwrap();
    let failure = |steps: usize| {
        let (mut stream, _) = ulaw.stream_transcode("x.wav", &bytes).ok().unwrap();
        let mut events = vec![
            ULawEvent::Written,
            ULawEvent::Resampled { pcm: vec![0; 2], wanted: 2 },
            ULawEvent::ResamplerReady(8),
        ];
        for _ in 0..steps {
            assert!(stream.advance(events.pop().unwrap()).is_ok());
        }
        match stream.advance(ULawEvent::Failed) {
            Err(err) => {
                assert_eq!(stream.step(), ULawStep::Failed);
                err.message()
            }
            Ok(_) => panic!("went on"),
        }
    };
    assert_eq!(failure(0), "Failed to create resampler");
    assert_eq!(failure(1), "Resampling failed");
    assert_eq!(failure(2), "Failed to write ulaw data");
    assert_eq!(failure(3), "Failed to flush ulaw data");
}

#[test]
fn wide_samples_stop_the_conversion() {
    let bytes = wav(1, 24, &[1, 2, 3]);
    let (mut stream, _) = ULaw::new().unwrap().stream_transcode("x.wav", &bytes).ok().unwrap();
    assert!(matches!(
        stream.advance(ULawEvent::ResamplerReady(4)),
        Err(ULawError::BadSample)
    ));
    assert_eq!(stream.step(), ULawStep::Failed);
}

#[test]
fn header_decides() {
    assert!(matches!(
        check_header(1, 44100),
        Ok(ULawAction::CreateResampler {
            input_rate: 44100,
            output_rate: 8000,
            frames: 1024,
            channels: 1
        })
    ));
    assert!(matches!(check_header(2, 44100), Err(ULawError::NotMono(2))));
    assert!(matches!(check_header(0, 8000), Err(ULawError::NotMono(0))));
}

#[test]
fn blocks_of_given_samples() {
    let mut buffer = vec![9i16; 4];
    assert!(matches!(load_block(&vec![Some(5), Some(-6)], &mut buffer, 3), Ok(2)));
    assert_eq!(buffer, vec![5, -6, 0, 9]);
    assert!(matches!(load_block(&vec![], &mut buffer, 3), Ok(0)));
    assert_eq!(buffer, vec![5, -6, 0, 9]);
    assert!(matches!(
        load_block(&vec![Some(1), None], &mut buffer, 3),
        Err(ULawError::BadSample)
    ));
    assert_eq!(buffer, vec![5, -6, 0, 9]);
    assert!(matches!(block_action(0), ULawAction::Flush));
    assert!(matches!(block_action(3), ULawAction::Resample(3)));
}
