use audio_convert_rs::service::writer::{AsyncChannelWriter, SendPoll, WriterCall, WriterStep};

/// Runs a call to its end with a channel that is always, or never, ready.
fn run(
    writer: &mut AsyncChannelWriter,
    call: WriterCall,
    data: &[u8],
    ready: bool,
    sent: &mut Vec<Vec<u8>>,
) -> WriterStep {
    let mut call = call;
    let mut polled = SendPoll::Unknown;
    loop {
        let (next, step) = writer.resume(call, data, polled);
        call = next;
        polled = SendPoll::Unknown;
        match step {
            WriterStep::Send(reply) => sent.push(reply.chunk),
            WriterStep::Poll => {
                polled = if ready { SendPoll::Ready } else { SendPoll::Pending };
            }
            other => return other,
        }
    }
}

#[test]
fn pieces_have_one_size() {
    let mut writer = AsyncChannelWriter::new(4);
    let mut sent = Vec::new();
    let data: Vec<u8> = (0..11).collect();
    let step = run(&mut writer, WriterCall::Write, &data[..3], true, &mut sent);
    assert!(matches!(step, WriterStep::Written(3)));
    assert!(sent.is_empty());
    let step = run(&mut writer, WriterCall::Write, &data[3..], true, &mut sent);
    assert!(matches!(step, WriterStep::Written(8)));
    assert_eq!(sent, vec![vec![0, 1, 2, 3], vec![4, 5, 6, 7]]);
    let step = run(&mut writer, WriterCall::Flush, &[], true, &mut sent);
    assert!(matches!(step, WriterStep::Flushed));
    assert_eq!(sent, vec![vec![0, 1, 2, 3], vec![4, 5, 6, 7], vec![8, 9, 10]]);
    let step = run(&mut writer, WriterCall::Flush, &[], true, &mut sent);
    assert!(matches!(step, WriterStep::Flushed));
    assert_eq!(sent.len(), 3);
}

#[test]
fn byte_by_byte() {
    let mut writer = AsyncChannelWriter::new(3);
    let mut sent = Vec::new();
    for byte in 0..8u8 {
        let step = run(&mut writer, WriterCall::Write, &[byte], true, &mut sent);
        assert!(matches!(step, WriterStep::Written(1)));
    }
    assert_eq!(sent, vec![vec![0, 1, 2], vec![3, 4, 5]]);
    run(&mut writer, WriterCall::Flush, &[], true, &mut sent);
    assert_eq!(sent.concat(), (0..8).collect::<Vec<u8>>());
}

#[test]
fn slow_channel_holds_the_writer_back() {
    let mut writer = AsyncChannelWriter::new(2);
    let mut sent = Vec::new();
    let step = run(&mut writer, WriterCall::Write, &[1, 2, 3, 4, 5], false, &mut sent);
    assert!(matches!(step, WriterStep::Written(5)));
    assert_eq!(sent, vec![vec![1, 2]]);
    let step = run(&mut writer, WriterCall::Write, &[6], false, &mut sent);
    assert!(matches!(step, WriterStep::Pending));
    let step = run(&mut writer, WriterCall::Flush, &[], false, &mut sent);
    assert!(matches!(step, WriterStep::Pending));
    assert_eq!(sent.len(), 1);
    let step = run(&mut writer, WriterCall::Write, &[6], true, &mut sent);
    assert!(matches!(step, WriterStep::Written(1)));
    let step = run(&mut writer, WriterCall::Flush, &[], true, &mut sent);
    assert!(matches!(step, WriterStep::Flushed));
    assert_eq!(sent, vec![vec![1, 2], vec![3, 4], vec![5, 6]]);
}

#[test]
fn pending_flush_completes_later() {
    let mut writer = AsyncChannelWriter::new(8);
    let mut sent = Vec::new();
    run(&mut writer, WriterCall::Write, &[1, 2], true, &mut sent);
    let step = run(&mut writer, WriterCall::Flush, &[], false, &mut sent);
    assert!(matches!(step, WriterStep::Pending));
    assert_eq!(sent, vec![vec![1, 2]]);
    let step = run(&mut writer, WriterCall::Flush, &[], true, &mut sent);
    assert!(matches!(step, WriterStep::Flushed));
    assert_eq!(sent, vec![vec![1, 2]]);
}

#[test]
fn closed_writer_takes_nothing() {
    let mut writer = AsyncChannelWriter::new(4);
    let mut sent = Vec::new();
    run(&mut writer, WriterCall::Write, &[1], true, &mut sent);
    writer.poll_shutdown();
    let step = run(&mut writer, WriterCall::Write, &[2], true, &mut sent);
    assert!(matches!(step, WriterStep::Closed));
    assert!(sent.is_empty());
    let step = run(&mut writer, WriterCall::Flush, &[], true, &mut sent);
    assert!(matches!(step, WriterStep::Flushed));
    assert_eq!(sent, vec![vec![1]]);
}

#[test]
fn as_many_pieces_as_needed() {
    for total in 0..30usize {
        for size in 1..7usize {
            let data: Vec<u8> = (0..total).map(|i| i as u8).collect();
            let mut writer = AsyncChannelWriter::new(size);
            let mut sent = Vec::new();
            for part in data.chunks(5) {
                run(&mut writer, WriterCall::Write, part, true, &mut sent);
            }
            let step = run(&mut writer, WriterCall::Flush, &[], true, &mut sent);
            assert!(matches!(step, WriterStep::Flushed));
            assert_eq!(sent.concat(), data);
            assert_eq!(sent.len(), (total + size - 1) / size);
            for (i, piece) in sent.iter().enumerate() {
                assert!(!piece.is_empty());
                assert!(piece.len() == size || i + 1 == sent.len());
            }
        }
    }
}

#[test]
fn full_pieces_are_sent_step_by_step() {
    let mut writer = AsyncChannelWriter::new(2);
    assert!(writer.poll_send_next_chunk(SendPoll::Unknown).is_none());
    let (_, step) = writer.resume(WriterCall::Write, &[1, 2, 3, 4, 5], SendPoll::Unknown);
    assert!(matches!(step, WriterStep::Send(reply) if reply.chunk == vec![1, 2]));
    assert!(matches!(
        writer.poll_send_next_chunk(SendPoll::Unknown),
        Some(WriterStep::Poll)
    ));
    assert!(matches!(
        writer.poll_send_next_chunk(SendPoll::Pending),
        Some(WriterStep::Pending)
    ));
    match writer.poll_send_next_chunk(SendPoll::Ready) {
        Some(WriterStep::Send(reply)) => assert_eq!(reply.chunk, vec![3, 4]),
        _ => panic!("no piece"),
    }
    assert!(writer.poll_send_next_chunk(SendPoll::Ready).is_none());
    assert!(writer.poll_send_next_chunk(SendPoll::Unknown).is_none());
}
