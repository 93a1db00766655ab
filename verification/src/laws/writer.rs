//! The laws of the writer that sends bytes to a channel in pieces.

use crate::service::writer::{
    AsyncChannelWriter, SendPoll, WriterCall, WriterMove, WriterStep, WriterView,
};
use vstd::prelude::*;

verus! {

/// A new writer holds nothing, is sending nothing, is open, and keeps the size of its
/// pieces.
pub proof fn law_writer_new(chunk_size: usize, res: AsyncChannelWriter)
    requires
        call_ensures(AsyncChannelWriter::new, (chunk_size,), res),
    ensures
        res@.buffer.len() == 0,
        res@.chunk_size == chunk_size,
        !res@.sending,
        !res@.closed,
{
}

/// Closing a writer changes nothing else.
pub proof fn law_writer_shut_down(writer: &mut AsyncChannelWriter)
    requires
        call_ensures(AsyncChannelWriter::poll_shutdown, (writer,), ()),
    ensures
        final(writer)@.closed,
        final(writer)@.buffer == old(writer)@.buffer,
        final(writer)@.chunk_size == old(writer)@.chunk_size,
        final(writer)@.sending == old(writer)@.sending,
{
}

/// A call has to wait only where a piece is being sent and was found to be so still; it
/// asks after the piece only where one is being sent and nothing is known of it; it is
/// refused only where it is to write and the writer is closed.
pub proof fn law_when_to_wait(
    writer: &mut AsyncChannelWriter,
    call: WriterCall,
    data: &[u8],
    polled: SendPoll,
    res: (WriterCall, WriterStep),
)
    requires
        call_ensures(AsyncChannelWriter::resume, (writer, call, data, polled), res),
    ensures
        res.1 is Closed <==> call is Write && old(writer)@.closed,
        res.1 is Poll <==> old(writer)@.sending && polled is Unknown && !(res.1 is Closed),
        res.1 is Pending <==> old(writer)@.sending && polled is Pending && !(call is WriteTaken)
            && !(res.1 is Closed),
        res.1 is Closed || res.1 is Poll || res.1 is Pending ==> res.0 == call && final(writer)@
            == old(writer)@,
        final(writer)@.chunk_size == old(writer)@.chunk_size,
        final(writer)@.closed == old(writer)@.closed,
{
}

/// Where no piece is being sent and less than a piece is held, a flush hands out all that
/// is held, if there is something, and is complete if there is nothing.
pub proof fn law_flush_hands_out_the_rest(
    writer: &mut AsyncChannelWriter,
    data: &[u8],
    polled: SendPoll,
    res: (WriterCall, WriterStep),
)
    requires
        call_ensures(AsyncChannelWriter::resume, (writer, WriterCall::Flush, data, polled), res),
        !old(writer)@.sending || polled is Ready,
        old(writer)@.buffer.len() < old(writer)@.chunk_size,
    ensures
        old(writer)@.buffer.len() > 0 ==> {
            &&& res.1 matches WriterStep::Send(reply)
            &&& reply.chunk@ == old(writer)@.buffer
            &&& res.0 is FlushRest
            &&& final(writer)@.buffer.len() == 0
            &&& final(writer)@.sending
        },
        old(writer)@.buffer.len() == 0 ==> {
            &&& res.1 is Flushed
            &&& final(writer)@.buffer.len() == 0
            &&& !final(writer)@.sending
        },
{
}

/// Where no piece is being sent and at least a piece is held, any call but a refused one
/// hands out the first bytes, as many as a piece has, keeps the others, and goes on.
pub proof fn law_full_piece_handed_out(
    writer: &mut AsyncChannelWriter,
    call: WriterCall,
    data: &[u8],
    polled: SendPoll,
    res: (WriterCall, WriterStep),
)
    requires
        call_ensures(AsyncChannelWriter::resume, (writer, call, data, polled), res),
        !(call is Write && old(writer)@.closed),
        !old(writer)@.sending || polled is Ready,
        old(writer)@.buffer.len() >= old(writer)@.chunk_size,
    ensures
        res.0 == call,
        res.1 matches WriterStep::Send(reply) && reply.chunk@.len() == old(writer)@.chunk_size
            && reply.chunk@ + final(writer)@.buffer == old(writer)@.buffer,
        final(writer)@.sending,
{
    if let WriterStep::Send(reply) = res.1 {
        assert(reply.chunk@ + final(writer)@.buffer =~= old(writer)@.buffer);
    }
}

/// Where no piece is being sent and less than a piece is held, a write takes all of its
/// bytes, behind those held. What makes a piece then is handed out; else the write is
/// complete, and says how many bytes it took.
pub proof fn law_write_takes_all(
    writer: &mut AsyncChannelWriter,
    data: &[u8],
    polled: SendPoll,
    res: (WriterCall, WriterStep),
)
    requires
        call_ensures(AsyncChannelWriter::resume, (writer, WriterCall::Write, data, polled), res),
        !old(writer)@.closed,
        !old(writer)@.sending || polled is Ready,
        old(writer)@.buffer.len() < old(writer)@.chunk_size,
    ensures
        res.0 is WriteTaken,
        old(writer)@.buffer.len() + data@.len() >= old(writer)@.chunk_size ==> {
            &&& res.1 matches WriterStep::Send(reply)
            &&& reply.chunk@.len() == old(writer)@.chunk_size
            &&& reply.chunk@ + final(writer)@.buffer == old(writer)@.buffer + data@
            &&& final(writer)@.sending
        },
        old(writer)@.buffer.len() + data@.len() < old(writer)@.chunk_size ==> {
            &&& res.1 matches WriterStep::Written(count)
            &&& count == data@.len()
            &&& final(writer)@.buffer == old(writer)@.buffer + data@
            &&& !final(writer)@.sending
        },
{
    if let WriterStep::Send(reply) = res.1 {
        assert(reply.chunk@ + final(writer)@.buffer =~= old(writer)@.buffer + data@);
    }
}

/// A write that has taken its bytes is complete where no full piece is left to hand out,
/// or a piece is still being sent; a flush that has handed out the rest is complete where
/// that has been sent. Neither changes what is held.
pub proof fn law_call_completes(
    writer: &mut AsyncChannelWriter,
    call: WriterCall,
    data: &[u8],
    polled: SendPoll,
    res: (WriterCall, WriterStep),
)
    requires
        call_ensures(AsyncChannelWriter::resume, (writer, call, data, polled), res),
    ensures
        call is WriteTaken && (if old(writer)@.sending && !(polled is Ready) {
            polled is Pending
        } else {
            old(writer)@.buffer.len() < old(writer)@.chunk_size
        }) ==> {
            &&& res.1 matches WriterStep::Written(count)
            &&& count == data@.len()
            &&& final(writer)@.buffer == old(writer)@.buffer
        },
        call is FlushRest && (!old(writer)@.sending || polled is Ready) && old(writer)@.buffer.len() < old(writer)@.chunk_size ==> {
            &&& res.1 is Flushed
            &&& !final(writer)@.sending
            &&& final(writer)@.buffer == old(writer)@.buffer
        },
        (res.1 matches WriterStep::Written(count) ==> count == data@.len() && (call is Write
            || call is WriteTaken)),
        res.1 is Flushed ==> (call is Flush || call is FlushRest) && !final(writer)@.sending,
{
}

/// Sending full pieces asks after a piece that is being sent, waits for it, hands out the
/// next full one where it can, and is done where nothing is being sent and less than a
/// piece is held.
pub proof fn law_next_piece(
    writer: &mut AsyncChannelWriter,
    polled: SendPoll,
    res: Option<WriterStep>,
)
    requires
        call_ensures(AsyncChannelWriter::poll_send_next_chunk, (writer, polled), res),
    ensures
        ({
            let busy = old(writer)@.sending && !(polled is Ready);
            let full = old(writer)@.buffer.len() >= old(writer)@.chunk_size;
            &&& busy && polled is Unknown ==> res == Some(WriterStep::Poll)
            &&& busy && polled is Pending ==> res == Some(WriterStep::Pending)
            &&& busy ==> final(writer)@ == old(writer)@
            &&& !busy && full ==> {
                &&& res matches Some(WriterStep::Send(reply))
                &&& reply.chunk@.len() == old(writer)@.chunk_size
                &&& reply.chunk@ + final(writer)@.buffer == old(writer)@.buffer
                &&& final(writer)@.sending
            }
            &&& !busy && !full ==> {
                &&& res is None
                &&& final(writer)@.buffer == old(writer)@.buffer
                &&& !final(writer)@.sending
            }
        }),
        final(writer)@.chunk_size == old(writer)@.chunk_size,
        final(writer)@.closed == old(writer)@.closed,
{
    if let Some(WriterStep::Send(reply)) = res {
        assert(reply.chunk@ + final(writer)@.buffer =~= old(writer)@.buffer);
    }
}

/// Each call is a move of a writer, so that what holds of traces holds of calls.
pub proof fn law_call_is_a_move(
    writer: &mut AsyncChannelWriter,
    call: WriterCall,
    data: &[u8],
    polled: SendPoll,
    res: (WriterCall, WriterStep),
)
    requires
        call_ensures(AsyncChannelWriter::resume, (writer, call, data, polled), res),
    ensures
        crate::service::writer::is_trace(
            seq![old(writer)@, final(writer)@],
            seq![
                WriterMove::Resume { call, data: data@, polled, next: res.0, step: res.1 },
            ],
        ),
{
}

/// What is known of the piece being sent when the step after `mv` is taken, where the
/// channel takes every piece at once.
pub open spec fn ready_poll(mv: WriterMove) -> SendPoll {
    if mv matches WriterMove::Resume { step, .. } && step is Poll {
        SendPoll::Ready
    } else {
        SendPoll::Unknown
    }
}

/// The move at `i` is the step that comes there of a call that starts at `call` with
/// nothing known of the piece being sent, on a channel that takes every piece at once.
pub open spec fn is_ready_step(
    call: WriterCall,
    data: Seq<u8>,
    moves: Seq<WriterMove>,
    i: int,
) -> bool {
    moves[i] matches WriterMove::Resume { call: at, data: bytes, polled, .. } && bytes == data
        && if i == 0 {
        at == call && polled is Unknown
    } else {
        polled == ready_poll(moves[i - 1]) && (moves[i - 1] matches WriterMove::Resume { next, .. }
            && at == next)
    }
}

/// The moves are the steps of one call that starts at `call` with nothing known of the
/// piece being sent, on a channel that takes every piece at once.
pub open spec fn is_ready_call(call: WriterCall, data: Seq<u8>, moves: Seq<WriterMove>) -> bool {
    forall|i: int| 0 <= i < moves.len() ==> #[trigger] is_ready_step(call, data, moves, i)
}

/// The move ends a call.
pub open spec fn ends_call(mv: WriterMove) -> bool {
    mv matches WriterMove::Resume { step, .. } && (step is Written || step is Flushed || step
        is Pending || step is Closed)
}

/// A bound on the steps that a call takes from here to its end, on a channel that takes
/// every piece at once.
spec fn steps_to_end(at: WriterView, mv: WriterMove) -> int {
    match mv {
        WriterMove::Resume { call, data, polled, .. } => {
            let held = at.buffer.len() + if call is Write { data.len() + 1 } else { 0 };
            3 * held + if at.sending { if polled is Ready { 1int } else { 2int } } else { 0int }
        },
        WriterMove::Shutdown => 0,
    }
}

/// Each step of a call that goes on brings the end nearer.
proof fn lemma_ready_progress(
    call: WriterCall,
    data: Seq<u8>,
    states: Seq<WriterView>,
    moves: Seq<WriterMove>,
    i: int,
)
    requires
        crate::service::writer::is_trace(states, moves),
        is_ready_call(call, data, moves),
        states[0].chunk_size > 0,
        forall|j: int| 0 <= j < moves.len() ==> !ends_call(#[trigger] moves[j]),
        0 <= i < moves.len(),
    ensures
        states[i].chunk_size == states[0].chunk_size,
        0 <= steps_to_end(states[i], moves[i]) <= steps_to_end(states[0], moves[0]) - i,
    decreases i,
{
    assert(is_ready_step(call, data, moves, i));
    if i > 0 {
        let last = i - 1;
        lemma_ready_progress(call, data, states, moves, last);
        assert(is_ready_step(call, data, moves, last));
        assert(crate::service::writer::writer_moves(states[last], moves[last], states[last + 1]));
        assert(!ends_call(moves[last]));
    }
}

/// On a channel that takes every piece at once, a flush reaches its end after finitely
/// many steps, and is complete then.
pub proof fn law_ready_flush_ends(
    states: Seq<WriterView>,
    data: Seq<u8>,
    moves: Seq<WriterMove>,
)
    requires
        crate::service::writer::is_trace(states, moves),
        is_ready_call(WriterCall::Flush, data, moves),
        states[0].chunk_size > 0,
        moves.len() > 3 * states[0].buffer.len() + 3,
    ensures
        exists|i: int|
            0 <= i < moves.len() && (#[trigger] moves[i] matches WriterMove::Resume { step, .. }
                && step is Flushed),
{
    if forall|j: int| 0 <= j < moves.len() ==> !ends_call(#[trigger] moves[j]) {
        assert(is_ready_step(WriterCall::Flush, data, moves, 0));
        lemma_ready_progress(WriterCall::Flush, data, states, moves, moves.len() - 1);
    } else {
        let i = choose|i: int| 0 <= i < moves.len() && ends_call(#[trigger] moves[i]);
        lemma_flush_steps(states, data, moves, i);
        assert(moves[i] matches WriterMove::Resume { step, .. } && step is Flushed);
    }
}

/// A flush stays one, and on a channel that takes every piece at once it never waits.
proof fn lemma_flush_steps(
    states: Seq<WriterView>,
    data: Seq<u8>,
    moves: Seq<WriterMove>,
    i: int,
)
    requires
        crate::service::writer::is_trace(states, moves),
        is_ready_call(WriterCall::Flush, data, moves),
        0 <= i < moves.len(),
    ensures
        moves[i] matches WriterMove::Resume { call, polled, step, next, .. } && (call is Flush
            || call is FlushRest) && (next is Flush || next is FlushRest) && !(polled is Pending)
            && !(step is Pending) && !(step is Written) && !(step is Closed),
    decreases i,
{
    assert(is_ready_step(WriterCall::Flush, data, moves, i));
    if i > 0 {
        lemma_flush_steps(states, data, moves, i - 1);
    }
    assert(crate::service::writer::writer_moves(states[i], moves[i], states[i + 1]));
}

/// On a channel that takes every piece at once, a write to an open writer reaches its end
/// after finitely many steps, and has taken its bytes then.
pub proof fn law_ready_write_ends(
    states: Seq<WriterView>,
    data: Seq<u8>,
    moves: Seq<WriterMove>,
)
    requires
        crate::service::writer::is_trace(states, moves),
        is_ready_call(WriterCall::Write, data, moves),
        states[0].chunk_size > 0,
        !states[0].closed,
        moves.len() > 3 * (states[0].buffer.len() + data.len()) + 6,
    ensures
        exists|i: int|
            0 <= i < moves.len() && (#[trigger] moves[i] matches WriterMove::Resume { step, .. }
                && step is Written),
{
    if forall|j: int| 0 <= j < moves.len() ==> !ends_call(#[trigger] moves[j]) {
        assert(is_ready_step(WriterCall::Write, data, moves, 0));
        lemma_ready_progress(WriterCall::Write, data, states, moves, moves.len() - 1);
    } else {
        let i = choose|i: int| 0 <= i < moves.len() && ends_call(#[trigger] moves[i]);
        lemma_write_steps(states, data, moves, i);
        assert(moves[i] matches WriterMove::Resume { step, .. } && step is Written);
    }
}

/// A write stays one, and on a channel that takes every piece at once it never waits.
proof fn lemma_write_steps(
    states: Seq<WriterView>,
    data: Seq<u8>,
    moves: Seq<WriterMove>,
    i: int,
)
    requires
        crate::service::writer::is_trace(states, moves),
        is_ready_call(WriterCall::Write, data, moves),
        !states[0].closed,
        0 <= i < moves.len(),
    ensures
        !states[i + 1].closed,
        moves[i] matches WriterMove::Resume { call, polled, step, next, .. } && (call is Write
            || call is WriteTaken) && (next is Write || next is WriteTaken) && !(polled is Pending)
            && !(step is Pending) && !(step is Flushed) && !(step is Closed),
    decreases i,
{
    assert(is_ready_step(WriterCall::Write, data, moves, i));
    if i > 0 {
        lemma_write_steps(states, data, moves, i - 1);
    }
    assert(crate::service::writer::writer_moves(states[i], moves[i], states[i + 1]));
}

} // verus!
