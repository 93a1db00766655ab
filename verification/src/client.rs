//! The client of the conversion service: what it sends and what it makes of the
//! answers.

use crate::messages::{
    AudioFormat, ConvertInput, InitialMetadata, Payload, StreamConvertInput, StreamFileReply,
};
use crate::service::{convert, stream, writer};
use vstd::prelude::*;

verus! {

/// The size of the pieces in which a file is sent.
pub const CHUNK_SIZE: usize = 65536;

/// The status of a service that is ready, in the answer to a health check.
pub const SERVING: i32 = 1;

/// The end of the piece of `len` bytes that starts at `offset`.
pub open spec fn piece_end(len: nat, offset: int) -> int {
    if offset + CHUNK_SIZE <= len { offset + CHUNK_SIZE } else { len as int }
}

/// The pieces in which `audio` is sent from `offset` on.
pub open spec fn pieces(audio: Seq<u8>, offset: int) -> Seq<Seq<u8>>
    decreases audio.len() - offset,
{
    if offset < 0 || offset >= audio.len() {
        Seq::empty()
    } else {
        let end = piece_end(audio.len(), offset);
        seq![audio.subrange(offset, end)] + pieces(audio, end)
    }
}

/// The next piece of `audio` as a message, and where the one after it starts; `None`
/// once all of it has been sent.
pub fn next_chunk(audio: &Vec<u8>, offset: usize) -> (res: Option<(StreamConvertInput, usize)>)
    ensures
        offset >= audio@.len() ==> res is None,
        offset < audio@.len() ==> (res matches Some((message, end)) && end == piece_end(
            audio@.len(),
            offset as int,
        ) && stream::is_chunk(message, audio@.subrange(offset as int, end as int))),
{
    if offset >= audio.len() {
        return None;
    }
    let left: usize = audio.len() - offset;
    let end: usize = if left >= CHUNK_SIZE { offset + CHUNK_SIZE } else { audio.len() };
    let mut chunk: Vec<u8> = Vec::new();
    let mut i: usize = offset;
    while i < end
        invariant
            offset <= i <= end <= audio@.len(),
            chunk@ == audio@.subrange(offset as int, i as int),
        decreases end - i,
    {
        chunk.push(audio[i]);
        i += 1;
        assert(chunk@ =~= audio@.subrange(offset as int, i as int));
    }
    Some((StreamConvertInput { payload: Some(Payload::Chunk(chunk)) }, end))
}

/// The metadata entries that the client sends along.
pub open spec fn is_client_metadata(metadata: Seq<String>) -> bool {
    metadata.len() == 2 && metadata[0]@ == "test=olia"@ && metadata[1]@ == "copyright=smth..."@
}

/// The metadata entries that the client sends along.
fn client_metadata() -> (res: Vec<String>)
    ensures
        is_client_metadata(res@),
{
    let mut res: Vec<String> = Vec::new();
    res.push("test=olia".to_owned());
    res.push("copyright=smth...".to_owned());
    res
}

/// The first message of a stream: the wanted format, by name, and the metadata.
pub fn first_message(format: &str) -> (res: StreamConvertInput)
    ensures
        res.payload matches Some(Payload::Metadata(meta)) && meta.format
            == AudioFormat::spec_from_name(format@).spec_number() && is_client_metadata(
            meta.metadata@,
        ),
{
    StreamConvertInput {
        payload: Some(
            Payload::Metadata(
                InitialMetadata {
                    format: AudioFormat::from_name(format).number(),
                    metadata: client_metadata(),
                },
            ),
        ),
    }
}

/// The request to convert `audio` in one message.
pub fn convert_request(format: &str, audio: Vec<u8>) -> (res: ConvertInput)
    ensures
        res.format == AudioFormat::spec_from_name(format@).spec_number(),
        is_client_metadata(res.metadata@),
        res.data == audio,
{
    ConvertInput {
        format: AudioFormat::from_name(format).number(),
        metadata: client_metadata(),
        data: audio,
    }
}

/// Adds an answer of the service to what has come before. The first failure ends it.
pub fn append_reply<E>(audio: &mut Vec<u8>, reply: Result<StreamFileReply, E>) -> (res: Result<
    (),
    E,
>)
    ensures
        match reply {
            Ok(reply) => res is Ok && final(audio)@ == old(audio)@ + reply.chunk@,
            Err(err) => res == Err::<(), E>(err) && final(audio)@ == old(audio)@,
        },
{
    match reply {
        Err(err) => Err(err),
        Ok(reply) => {
            let mut chunk = reply.chunk;
            audio.append(&mut chunk);
            Ok(())
        },
    }
}

/// The name of the file for the result: that of the input and the format, in lower case.
pub fn output_name(file: &str, format: &str) -> (res: String)
    ensures
        res@ == file@ + "."@ + format@.map_values(|c: char| crate::text::ascii_lower(c)),
{
    let mut res = file.to_owned();
    res.append(".");
    res.append(crate::text::to_ascii_lowercase(format).as_str());
    res
}

/// The address of the service for a client on the same machine.
pub fn server_url(port: u16) -> (res: String)
    ensures
        res@ == "http://[::]:"@ + crate::text::decimal(port as int),
{
    let mut res = "http://[::]:".to_owned();
    res.append(crate::text::decimal_string(port as i64).as_str());
    res
}

/// Whether the service is ready, by the status in its answer to a health check.
pub fn check_health(status: i32) -> (res: Result<(), String>)
    ensures
        status == SERVING ==> res is Ok,
        status != SERVING ==> (res matches Err(text) && text@ == "Service is not healthy"@),
{
    if status != SERVING {
        return Err("Service is not healthy".to_owned());
    }
    Ok(())
}

/// The pieces of a file, put together, are the file; all but the last have `CHUNK_SIZE`
/// bytes, the last has at least one, and there are as many as the number of bytes,
/// divided by `CHUNK_SIZE` and rounded up.
pub proof fn law_pieces_cover(audio: Seq<u8>, offset: int)
    requires
        0 <= offset <= audio.len(),
    ensures
        pieces(audio, offset).flatten() == audio.skip(offset),
        forall|i: int|
            0 <= i < pieces(audio, offset).len() ==> 0 < (#[trigger] pieces(
                audio,
                offset,
            )[i]).len() <= CHUNK_SIZE,
        forall|i: int|
            0 <= i < pieces(audio, offset).len() - 1 ==> (#[trigger] pieces(
                audio,
                offset,
            )[i]).len() == CHUNK_SIZE,
        pieces(audio, offset).len() == (audio.len() - offset + CHUNK_SIZE - 1)
            / CHUNK_SIZE as int,
{
    lemma_pieces_cut(audio, offset);
    crate::pieces::law_piece_count(pieces(audio, offset), CHUNK_SIZE as nat);
}

/// The pieces of a file are cut to `CHUNK_SIZE` bytes.
proof fn lemma_pieces_cut(audio: Seq<u8>, offset: int)
    requires
        0 <= offset <= audio.len(),
    ensures
        pieces(audio, offset).flatten() == audio.skip(offset),
        crate::pieces::are_cut(pieces(audio, offset), CHUNK_SIZE as nat),
    decreases audio.len() - offset,
{
    reveal_with_fuel(Seq::flatten, 2);
    if offset < audio.len() {
        let end = piece_end(audio.len(), offset);
        let all = pieces(audio, offset);
        lemma_pieces_cut(audio, end);
        assert(all.drop_first() =~= pieces(audio, end));
        assert(all.flatten() =~= audio.subrange(offset, end) + audio.skip(end));
        assert(all.flatten() =~= audio.skip(offset));
        assert forall|i: int| 0 <= i < all.len() implies 0 < (#[trigger] all[i]).len()
            <= CHUNK_SIZE by {
            if i > 0 {
                assert(all[i] == pieces(audio, end)[i - 1]);
            }
        }
        assert forall|i: int| 0 <= i < all.len() - 1 implies (#[trigger] all[i]).len()
            == CHUNK_SIZE by {
            if i > 0 {
                assert(all[i] == pieces(audio, end)[i - 1]);
            } else {
                assert(pieces(audio, end).len() > 0);
            }
        }
    } else {
        assert(pieces(audio, offset).flatten() =~= audio.skip(offset));
    }
}

/// A file that a client sends in pieces is saved by the service as it was.
pub proof fn law_upload_round_trip(
    format: AudioFormat,
    audio: Seq<u8>,
    messages: Seq<StreamConvertInput>,
)
    requires
        stream::are_chunks(messages, pieces(audio, 0)),
    ensures
        stream::stream_run(format, stream::StreamStep::Receive, stream::upload_events(messages)) is Sync,
        stream::stream_saved(stream::upload_events(messages)) == audio,
{
    law_pieces_cover(audio, 0);
    stream::law_upload_saved(format, messages, pieces(audio, 0));
    assert(audio.skip(0) =~= audio);
}

/// What a client has once it has added these answers to what it had.
pub open spec fn collected(audio: Seq<u8>, pieces: Seq<Seq<u8>>) -> Seq<u8>
    decreases pieces.len(),
{
    if pieces.len() == 0 {
        audio
    } else {
        collected(audio + pieces[0], pieces.drop_first())
    }
}

/// A result that the service sends in pieces is put together by the client as it was.
pub proof fn law_download_round_trip(format: AudioFormat, pieces: Seq<Vec<u8>>, end: Vec<u8>)
    requires
        end@.len() == 0,
        forall|i: int|
            0 <= i < pieces.len() ==> 0 < (#[trigger] pieces[i])@.len() <= stream::REPLY_SIZE,
    ensures
        collected(Seq::empty(), pieces.map_values(|piece: Vec<u8>| piece@)) == stream::stream_sent(
            stream::download_events(pieces, end),
        ),
{
    let bytes = pieces.map_values(|piece: Vec<u8>| piece@);
    stream::law_result_sent(format, pieces, end);
    lemma_collected(Seq::empty(), bytes);
    assert(Seq::<u8>::empty() + bytes.flatten() =~= bytes.flatten());
}

/// The bytes that a writer holds and takes reach the client as they were, once the
/// writer is flushed and the client has added up its pieces.
pub proof fn law_writer_round_trip(
    states: Seq<writer::WriterView>,
    moves: Seq<writer::WriterMove>,
)
    requires
        writer::is_trace(states, moves),
        writer::flush_in_order(moves),
        moves.len() > 0,
        writer::completes_flush(moves.last()),
    ensures
        collected(Seq::empty(), writer::sent_pieces(moves)) == states[0].buffer
            + writer::all_taken(moves),
{
    let pieces = writer::sent_pieces(moves);
    writer::law_flush_completes(states, moves);
    writer::law_pieces_are_handed(moves);
    lemma_collected(Seq::empty(), pieces);
    assert(Seq::<u8>::empty() + pieces.flatten() =~= pieces.flatten());
}

/// A single and a streamed conversion ask the transcoder for the same: the same file,
/// and, where FFmpeg converts it, the same metadata and the same file for the result.
pub open spec fn same_transcoding(
    single: convert::ConvertAction,
    streamed: stream::StreamAction,
) -> bool {
    match (single, streamed) {
        (
            convert::ConvertAction::TranscodeULaw(from),
            stream::StreamAction::TranscodeULaw { input, .. },
        ) => from@ == input@,
        (
            convert::ConvertAction::TranscodeFFMpeg { input: from, metadata: entries, output: to },
            stream::StreamAction::TranscodeFFMpeg { input, metadata, output },
        ) => from@ == input@ && entries == metadata && to@ == output@,
        _ => false,
    }
}

/// A single conversion that waits for what comes right before the transcoder: mu-law has
/// its output file made once the input is saved.
pub open spec fn before_transcoder(
    format: AudioFormat,
    metadata: Vec<String>,
    data: Vec<u8>,
) -> convert::Conversion {
    let saving = (convert::Conversion::MakeDir { format, metadata, data }).after(
        convert::ConvertEvent::Done,
    );
    if format == AudioFormat::Ulaw { saving.after(convert::ConvertEvent::Done) } else { saving }
}

/// Whether a client sends its file in one message or in pieces, however it cuts them, the
/// service saves the same bytes in a file of the same name and asks the transcoder for
/// the same.
pub proof fn law_stream_same_work(
    format: AudioFormat,
    metadata: Vec<String>,
    data: Vec<u8>,
    messages: Seq<StreamConvertInput>,
    cut: Seq<Seq<u8>>,
    save: convert::ConvertAction,
    create: stream::StreamAction,
    single: convert::ConvertAction,
    streamed: stream::StreamAction,
)
    requires
        stream::are_chunks(messages, cut),
        cut.flatten() == data@,
        (convert::Conversion::MakeDir { format, metadata, data }).asks(
            convert::ConvertEvent::Done,
            save,
        ),
        stream::stream_asks(
            (stream::StreamConversion { format, metadata, step: stream::StreamStep::MakeDir }),
            stream::StreamEvent::Done,
            stream::stream_after(format, stream::StreamStep::MakeDir, stream::StreamEvent::Done),
            create,
        ),
        before_transcoder(format, metadata, data).asks(convert::ConvertEvent::Done, single),
        stream::stream_asks(
            (stream::StreamConversion { format, metadata, step: stream::StreamStep::Sync }),
            stream::StreamEvent::Done,
            stream::stream_after(format, stream::StreamStep::Sync, stream::StreamEvent::Done),
            streamed,
        ),
    ensures
        save matches convert::ConvertAction::Save { name, data: saved } && saved == data && (
        create matches stream::StreamAction::CreateInput(other) && name@ == other@),
        stream::stream_run(format, stream::StreamStep::Receive, stream::upload_events(messages)) is Sync,
        stream::stream_saved(stream::upload_events(messages)) == data@,
        same_transcoding(single, streamed),
{
    stream::law_upload_saved(format, messages, cut);
}

/// What a client puts together from a stream is what it is answered in one message, where
/// FFmpeg has made the same file: `result` is what a single conversion reads from it,
/// and `reads` are the pieces in which a streamed one reads it.
pub proof fn law_stream_same_result(
    format: AudioFormat,
    result: Vec<u8>,
    reply: convert::ConvertAction,
    reads: Seq<Vec<u8>>,
    end: Vec<u8>,
)
    requires
        convert::Conversion::Load.asks(convert::ConvertEvent::Loaded(result), reply),
        end@.len() == 0,
        forall|i: int|
            0 <= i < reads.len() ==> 0 < (#[trigger] reads[i])@.len() <= stream::REPLY_SIZE,
        reads.map_values(|piece: Vec<u8>| piece@).flatten() == result@,
    ensures
        reply matches convert::ConvertAction::Reply(answer) && answer.data@ == collected(
            Seq::empty(),
            reads.map_values(|piece: Vec<u8>| piece@),
        ) && answer.data@ == stream::stream_sent(stream::download_events(reads, end)),
{
    let bytes = reads.map_values(|piece: Vec<u8>| piece@);
    law_download_round_trip(format, reads, end);
    lemma_collected(Seq::empty(), bytes);
    assert(Seq::<u8>::empty() + bytes.flatten() =~= bytes.flatten());
}

/// What a client puts together from a mu-law stream is what it is answered in one
/// message, where the conversion has written the same bytes: `result` is what a single
/// conversion reads from its file, and the writer of a streamed one, empty at first, has
/// taken the same bytes and been flushed.
pub proof fn law_ulaw_stream_same_result(
    result: Vec<u8>,
    reply: convert::ConvertAction,
    states: Seq<writer::WriterView>,
    moves: Seq<writer::WriterMove>,
)
    requires
        convert::Conversion::Load.asks(convert::ConvertEvent::Loaded(result), reply),
        writer::is_trace(states, moves),
        states[0].buffer.len() == 0,
        writer::flush_in_order(moves),
        moves.len() > 0,
        writer::completes_flush(moves.last()),
        writer::all_taken(moves) == result@,
    ensures
        reply matches convert::ConvertAction::Reply(answer) && answer.data@ == collected(
            Seq::empty(),
            writer::sent_pieces(moves),
        ),
{
    law_writer_round_trip(states, moves);
    assert(states[0].buffer + writer::all_taken(moves) =~= writer::all_taken(moves));
}

/// Answers are added at the end, in order.
proof fn lemma_collected(audio: Seq<u8>, pieces: Seq<Seq<u8>>)
    ensures
        collected(audio, pieces) == audio + pieces.flatten(),
    decreases pieces.len(),
{
    reveal_with_fuel(Seq::flatten, 2);
    if pieces.len() == 0 {
        assert(audio + pieces.flatten() =~= audio);
    } else {
        lemma_collected(audio + pieces[0], pieces.drop_first());
        assert(audio + pieces[0] + pieces.drop_first().flatten() =~= audio + pieces.flatten());
    }
}

/// The service accepts a stream whose first message names, as the client does, one of
/// the three audio formats, and refuses every other name as no format.
pub proof fn law_first_message_accepted<E>(name: Seq<char>, metadata: Vec<String>)
    ensures
        ({
            let first = stream::Received::<E>::Input(
                StreamConvertInput {
                    payload: Some(
                        Payload::Metadata(
                            InitialMetadata {
                                format: AudioFormat::spec_from_name(name).spec_number(),
                                metadata,
                            },
                        ),
                    ),
                },
            );
            if name == "MP3"@ || name == "M4A"@ || name == "ULAW"@ {
                stream::accepted(first) == Some((AudioFormat::spec_from_name(name), metadata))
            } else {
                stream::accepted(first) is None && stream::refusal_text(first) == "audio format unspecified"@
            }
        }),
{
    reveal_strlit("MP3");
    reveal_strlit("M4A");
    reveal_strlit("ULAW");
}

} // verus!
