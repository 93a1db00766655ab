//! The laws of the client.

use crate::client::{
    append_reply, check_health, convert_request, first_message, next_chunk, output_name,
    server_url,
};
use crate::messages::{ConvertInput, Payload, StreamConvertInput, StreamFileReply};
use vstd::prelude::*;

verus! {

/// As long as there is something left of a file, the next message holds the bytes that
/// come next, 64 KiB of them or all that is left, and the one after it starts right behind
/// them.
pub proof fn law_next_piece_of_file(
    audio: &Vec<u8>,
    offset: usize,
    res: Option<(StreamConvertInput, usize)>,
)
    requires
        call_ensures(next_chunk, (audio, offset), res),
    ensures
        res is Some <==> offset < audio@.len(),
        (res matches Some((message, end)) ==> {
            &&& message.payload matches Some(Payload::Chunk(chunk))
            &&& chunk@.len() == end - offset
            &&& 0 < chunk@.len() <= 65536
            &&& end <= audio@.len()
            &&& end < audio@.len() ==> chunk@.len() == 65536
            &&& forall|i: int| 0 <= i < chunk@.len() ==> #[trigger] chunk@[i] == audio@[offset + i]
        }),
{
}

/// The name of a format, by its number in a message.
pub open spec fn number_of(name: Seq<char>) -> int {
    if name == seq!['M', 'P', '3'] {
        1
    } else if name == seq!['M', '4', 'A'] {
        2
    } else if name == seq!['U', 'L', 'A', 'W'] {
        3
    } else {
        0
    }
}

/// Names that are known have their numbers.
proof fn lemma_number_of(name: Seq<char>)
    ensures
        crate::messages::AudioFormat::spec_from_name(name).spec_number() == number_of(name),
{
    reveal_strlit("MP3");
    reveal_strlit("M4A");
    reveal_strlit("ULAW");
    assert("MP3"@ =~= seq!['M', 'P', '3']);
    assert("M4A"@ =~= seq!['M', '4', 'A']);
    assert("ULAW"@ =~= seq!['U', 'L', 'A', 'W']);
}

/// A client asks for the format that it names, sends the same two metadata entries either
/// way, and, in one message, all of the file.
pub proof fn law_requests(
    format: &str,
    audio: Vec<u8>,
    single: ConvertInput,
    first: StreamConvertInput,
)
    requires
        call_ensures(convert_request, (format, audio), single),
        call_ensures(first_message, (format,), first),
    ensures
        single.format == number_of(format@),
        single.data@ == audio@,
        single.metadata@.len() == 2,
        single.metadata@[0]@ == "test=olia"@,
        single.metadata@[1]@ == "copyright=smth..."@,
        first.payload matches Some(Payload::Metadata(meta)) && meta.format == single.format
            && meta.metadata@.len() == 2 && meta.metadata@[0]@ == "test=olia"@
            && meta.metadata@[1]@ == "copyright=smth..."@,
{
    lemma_number_of(format@);
}

/// An answer is added behind what has come before, all of it; an error changes nothing
/// and is what the call gives.
pub proof fn law_reply_added<E>(
    audio: &mut Vec<u8>,
    reply: Result<StreamFileReply, E>,
    res: Result<(), E>,
)
    requires
        call_ensures(append_reply, (audio, reply), res),
    ensures
        res is Ok <==> reply is Ok,
        (reply matches Ok(message) ==> {
            &&& final(audio)@.len() == old(audio)@.len() + message.chunk@.len()
            &&& forall|i: int|
                0 <= i < old(audio)@.len() ==> #[trigger] final(audio)@[i] == old(audio)@[i]
            &&& forall|i: int|
                0 <= i < message.chunk@.len() ==> final(audio)@[old(audio)@.len() + i]
                    == #[trigger] message.chunk@[i]
        }),
        (reply matches Err(err) ==> res->Err_0 == err && final(audio)@ == old(audio)@),
{
}

/// The result is saved beside the input: under its name, a dot, and the format in lower
/// case.
pub proof fn law_output_name(file: &str, format: &str, res: String)
    requires
        call_ensures(output_name, (file, format), res),
    ensures
        res@.len() == file@.len() + 1 + format@.len(),
        forall|i: int| 0 <= i < file@.len() ==> #[trigger] res@[i] == file@[i],
        res@[file@.len() as int] == '.',
        forall|i: int|
            0 <= i < format@.len() ==> if 'A' <= #[trigger] format@[i] <= 'Z' {
                res@[file@.len() + 1 + i] as int == format@[i] as int + 32
            } else {
                res@[file@.len() + 1 + i] == format@[i]
            },
{
    reveal_strlit(".");
    assert forall|i: int| 0 <= i < format@.len() implies if 'A' <= #[trigger] format@[i] <= 'Z' {
        res@[file@.len() + 1 + i] as int == format@[i] as int + 32
    } else {
        res@[file@.len() + 1 + i] == format@[i]
    } by {
        assert(res@[file@.len() + 1 + i] == crate::text::ascii_lower(format@[i]));
    }
}

/// The service is called on the same machine, at the port given.
pub proof fn law_server_url(port: u16, res: String)
    requires
        call_ensures(server_url, (port,), res),
    ensures
        res@.len() > 12,
        res@.take(12) == "http://[::]:"@,
        crate::laws::text::is_number(res@.skip(12)),
        crate::laws::text::value_of(res@.skip(12)) == port,
{
    reveal_strlit("http://[::]:");
    crate::laws::text::lemma_decimal_text(port as int);
    assert(res@.take(12) =~= "http://[::]:"@);
    assert(res@.skip(12) =~= crate::text::decimal(port as int));
}

/// A service is ready if, and only if, its status is the one that says so.
pub proof fn law_health(status: i32, res: Result<(), String>)
    requires
        call_ensures(check_health, (status,), res),
    ensures
        res is Ok <==> status == 1,
        res is Err ==> (res->Err_0)@ == "Service is not healthy"@,
{
}

} // verus!
