//! A writer that gathers bytes and hands them to a channel in pieces of one size.
//!
//! Sending to the channel can take long, so the writer never waits for it: a call to
//! write or to flush proceeds in steps, and between two steps the caller does what the
//! step before asked for.

use crate::messages::StreamFileReply;
use vstd::prelude::*;

verus! {

/// The size of the pieces in which mu-law bytes are sent.
pub const WRITER_CHUNK: usize = 65536;

/// Gathers bytes, and knows whether a piece is being sent.
pub struct AsyncChannelWriter {
    buffer: Vec<u8>,
    chunk_size: usize,
    sending: bool,
    closed: bool,
}

/// A writer, as contracts see it.
pub struct WriterView {
    /// The bytes that have been taken and not been handed out.
    pub buffer: Seq<u8>,
    /// The size of a piece.
    pub chunk_size: nat,
    /// Whether a piece is being sent.
    pub sending: bool,
    /// Whether the writer takes no more bytes.
    pub closed: bool,
}

/// Where a call to the writer stands.
#[derive(Clone, Copy, Debug, PartialEq, Eq, Structural)]
pub enum WriterCall {
    /// A call to write whose bytes have not been taken yet.
    Write,
    /// A call to write whose bytes have been taken.
    WriteTaken,
    /// A call to flush that has full pieces to send first.
    Flush,
    /// A call to flush that has handed out the rest.
    FlushRest,
}

/// What is known of the piece that is being sent.
#[derive(Clone, Copy, Debug, PartialEq, Eq, Structural)]
pub enum SendPoll {
    /// Nothing yet.
    Unknown,
    /// It is still being sent.
    Pending,
    /// It has been sent.
    Ready,
}

/// What a step of a call asks for, or how the call ends.
pub enum WriterStep {
    /// Start to send this message, and go on.
    Send(StreamFileReply),
    /// Find out whether the piece has been sent, and go on with the answer.
    Poll,
    /// The call cannot proceed until the piece has been sent; call again then.
    Pending,
    /// The call to write has taken this many bytes.
    Written(usize),
    /// The call to flush is complete.
    Flushed,
    /// The call to write is refused: the writer is closed.
    Closed,
}

impl WriterView {
    /// The writer once the piece that was being sent is known to have been sent.
    pub open spec fn settled(self, polled: SendPoll) -> WriterView {
        if polled is Ready { WriterView { sending: false, ..self } } else { self }
    }

    /// A full piece is ready to be sent.
    pub open spec fn has_chunk(self) -> bool {
        self.buffer.len() >= self.chunk_size
    }

    /// The writer once a full piece has been handed out.
    pub open spec fn without_chunk(self) -> WriterView {
        WriterView { buffer: self.buffer.skip(self.chunk_size as int), sending: true, ..self }
    }

    /// The piece that is handed out next.
    pub open spec fn chunk(self) -> Seq<u8> {
        self.buffer.take(self.chunk_size as int)
    }
}

/// A step sends these bytes.
pub open spec fn sends(step: WriterStep, bytes: Seq<u8>) -> bool {
    step matches WriterStep::Send(reply) && reply.chunk@ == bytes
}

/// A step reports that this many bytes were taken.
pub open spec fn reports(step: WriterStep, count: nat) -> bool {
    step matches WriterStep::Written(taken) && taken == count
}

/// What a step towards having no full piece left does: `before` and `after` are the
/// writer before and after it, and `res` is what it asks for, `None` where there is
/// nothing to do or to wait for.
pub open spec fn send_steps(
    before: WriterView,
    polled: SendPoll,
    after: WriterView,
    res: Option<WriterStep>,
) -> bool {
    let settled = before.settled(polled);
    if settled.sending {
        &&& after == before
        &&& if polled is Unknown { res == Some(WriterStep::Poll) } else { res == Some(
            WriterStep::Pending,
        ) }
    } else if settled.has_chunk() {
        after == settled.without_chunk() && res is Some && sends(res->0, settled.chunk())
    } else {
        after == settled && res is None
    }
}

/// What a step of `call` does: `before` is the writer before it, `after` and `next` are
/// the writer and the call after it, and `step` is what it asks for.
///
/// A closed writer refuses to write. Else, as long as a piece is being sent, the step
/// asks after it; a call that finds it still pending can only come back later, except
/// for one to write that has taken its bytes. Otherwise a full piece goes out where
/// there is one. Where there is none, a call to write takes its bytes, and one to flush
/// hands out the rest.
pub open spec fn writer_steps(
    before: WriterView,
    call: WriterCall,
    data: Seq<u8>,
    polled: SendPoll,
    after: WriterView,
    next: WriterCall,
    step: WriterStep,
) -> bool {
    let settled = before.settled(polled);
    if call is Write && before.closed {
        after == before && next == call && step is Closed
    } else if settled.sending {
        if polled is Unknown {
            after == before && next == call && step is Poll
        } else if call is WriteTaken {
            after == before && next == call && reports(step, data.len())
        } else {
            after == before && next == call && step is Pending
        }
    } else if settled.has_chunk() {
        after == settled.without_chunk() && next == call && sends(step, settled.chunk())
    } else {
        match call {
            WriterCall::Write => {
                let taken = WriterView { buffer: settled.buffer + data, ..settled };
                if taken.has_chunk() {
                    after == taken.without_chunk() && next is WriteTaken && sends(
                        step,
                        taken.chunk(),
                    )
                } else {
                    after == taken && next is WriteTaken && reports(step, data.len())
                }
            },
            WriterCall::WriteTaken => after == settled && next == call && reports(step, data.len()),
            WriterCall::Flush => if settled.buffer.len() > 0 {
                after == (WriterView { buffer: Seq::empty(), sending: true, ..settled })
                    && next is FlushRest && sends(step, settled.buffer)
            } else {
                after == settled && next == call && step is Flushed
            },
            WriterCall::FlushRest => after == settled && next == call && step is Flushed,
        }
    }
}

impl AsyncChannelWriter {
    /// The writer as contracts see it.
    pub closed spec fn view(&self) -> WriterView {
        WriterView {
            buffer: self.buffer@,
            chunk_size: self.chunk_size as nat,
            sending: self.sending,
            closed: self.closed,
        }
    }

    /// A writer that sends pieces of `chunk_size` bytes.
    pub fn new(chunk_size: usize) -> (res: AsyncChannelWriter)
        ensures
            res@ == (WriterView {
                buffer: Seq::empty(),
                chunk_size: chunk_size as nat,
                sending: false,
                closed: false,
            }),
    {
        AsyncChannelWriter {
            buffer: Vec::with_capacity(chunk_size),
            chunk_size,
            sending: false,
            closed: false,
        }
    }

    /// Hands out a full piece.
    fn take_chunk(&mut self) -> (res: WriterStep)
        requires
            old(self)@.has_chunk(),
        ensures
            final(self)@ == old(self)@.without_chunk(),
            sends(res, old(self)@.chunk()),
    {
        let rest = self.buffer.split_off(self.chunk_size);
        let mut chunk = rest;
        std::mem::swap(&mut self.buffer, &mut chunk);
        self.sending = true;
        WriterStep::Send(StreamFileReply { chunk })
    }

    /// Sends full pieces, one step at a time; `None` where there is nothing to do or to
    /// wait for.
    pub fn poll_send_next_chunk(&mut self, polled: SendPoll) -> (res: Option<WriterStep>)
        ensures
            send_steps(old(self)@, polled, final(self)@, res),
    {
        if self.sending {
            match polled {
                SendPoll::Unknown => {
                    return Some(WriterStep::Poll);
                },
                SendPoll::Pending => {
                    return Some(WriterStep::Pending);
                },
                SendPoll::Ready => {
                    self.sending = false;
                },
            }
        }
        if self.buffer.len() >= self.chunk_size {
            return Some(self.take_chunk());
        }
        None
    }

    /// Takes the next step of a call to write `data`, or of one to flush, where `data`
    /// is not looked at. A call to write starts at `WriterCall::Write`, one to flush at
    /// `WriterCall::Flush`, each with nothing known of the piece being sent; a call that
    /// was pending starts anew.
    pub fn resume(&mut self, call: WriterCall, data: &[u8], polled: SendPoll) -> (res: (
        WriterCall,
        WriterStep,
    ))
        ensures
            writer_steps(old(self)@, call, data@, polled, final(self)@, res.0, res.1),
    {
        match call {
            WriterCall::Write => {
                if self.closed {
                    return (call, WriterStep::Closed);
                }
                if let Some(step) = self.poll_send_next_chunk(polled) {
                    return (call, step);
                }
                let ghost settled = self@;
                self.buffer.extend_from_slice(data);
                assert(self.buffer@ =~= settled.buffer + data@);
                if self.buffer.len() >= self.chunk_size {
                    return (WriterCall::WriteTaken, self.take_chunk());
                }
                (WriterCall::WriteTaken, WriterStep::Written(data.len()))
            },
            WriterCall::WriteTaken => match self.poll_send_next_chunk(polled) {
                None | Some(WriterStep::Pending) => (call, WriterStep::Written(data.len())),
                Some(step) => (call, step),
            },
            WriterCall::Flush => {
                if let Some(step) = self.poll_send_next_chunk(polled) {
                    return (call, step);
                }
                if self.buffer.len() > 0 {
                    let mut chunk: Vec<u8> = Vec::new();
                    std::mem::swap(&mut self.buffer, &mut chunk);
                    self.sending = true;
                    return (
                        WriterCall::FlushRest,
                        WriterStep::Send(StreamFileReply { chunk }),
                    );
                }
                (call, WriterStep::Flushed)
            },
            WriterCall::FlushRest => match self.poll_send_next_chunk(polled) {
                None => (call, WriterStep::Flushed),
                Some(step) => (call, step),
            },
        }
    }

    /// Closes the writer: it takes no more bytes. What it holds stays where it is.
    pub fn poll_shutdown(&mut self)
        ensures
            final(self)@ == (WriterView { closed: true, ..old(self)@ }),
    {
        self.closed = true;
    }
}

/// One thing that happens to a writer.
pub enum WriterMove {
    /// A step of a call.
    Resume {
        call: WriterCall,
        data: Seq<u8>,
        polled: SendPoll,
        next: WriterCall,
        step: WriterStep,
    },
    /// It is closed.
    Shutdown,
}

/// `mv` takes a writer from `before` to `after`.
pub open spec fn writer_moves(before: WriterView, mv: WriterMove, after: WriterView) -> bool {
    match mv {
        WriterMove::Resume { call, data, polled, next, step } => writer_steps(
            before,
            call,
            data,
            polled,
            after,
            next,
            step,
        ),
        WriterMove::Shutdown => after == (WriterView { closed: true, ..before }),
    }
}

/// The bytes that the writer takes.
pub open spec fn taken(mv: WriterMove) -> Seq<u8> {
    match mv {
        WriterMove::Resume { call, data, next, .. } => if call is Write && next is WriteTaken {
            data
        } else {
            Seq::empty()
        },
        WriterMove::Shutdown => Seq::empty(),
    }
}

/// The bytes that the writer hands out to be sent.
pub open spec fn handed(mv: WriterMove) -> Seq<u8> {
    match mv {
        WriterMove::Resume { step: WriterStep::Send(reply), .. } => reply.chunk@,
        _ => Seq::empty(),
    }
}

/// The moves take a writer through the states.
pub open spec fn is_trace(states: Seq<WriterView>, moves: Seq<WriterMove>) -> bool {
    &&& states.len() == moves.len() + 1
    &&& forall|i: int|
        0 <= i < moves.len() ==> writer_moves(states[i], #[trigger] moves[i], states[i + 1])
}

/// All bytes that the writer takes, in order.
pub open spec fn all_taken(moves: Seq<WriterMove>) -> Seq<u8> {
    moves.map_values(|mv: WriterMove| taken(mv)).flatten()
}

/// All bytes that the writer hands out, in order.
pub open spec fn all_handed(moves: Seq<WriterMove>) -> Seq<u8> {
    moves.map_values(|mv: WriterMove| handed(mv)).flatten()
}

/// The steps take a writer through the states; each is given what is known of the piece
/// that is being sent.
pub open spec fn is_send_run(
    states: Seq<WriterView>,
    polls: Seq<SendPoll>,
    results: Seq<Option<WriterStep>>,
) -> bool {
    &&& states.len() == results.len() + 1
    &&& polls.len() == results.len()
    &&& forall|i: int|
        0 <= i < results.len() ==> send_steps(
            states[i],
            polls[i],
            states[i + 1],
            #[trigger] results[i],
        )
}

/// The pieces that these steps send, in order.
pub open spec fn run_pieces(results: Seq<Option<WriterStep>>) -> Seq<Seq<u8>>
    decreases results.len(),
{
    if results.len() == 0 {
        Seq::empty()
    } else {
        match results[0] {
            Some(WriterStep::Send(reply)) => seq![reply.chunk@] + run_pieces(
                results.drop_first(),
            ),
            _ => run_pieces(results.drop_first()),
        }
    }
}

/// The pieces that the writer hands out, in order.
pub open spec fn sent_pieces(moves: Seq<WriterMove>) -> Seq<Seq<u8>>
    decreases moves.len(),
{
    if moves.len() == 0 {
        Seq::empty()
    } else if hands_out(moves[0]) {
        seq![handed(moves[0])] + sent_pieces(moves.drop_first())
    } else {
        sent_pieces(moves.drop_first())
    }
}

/// The move hands out a piece.
pub open spec fn hands_out(mv: WriterMove) -> bool {
    mv matches WriterMove::Resume { step, .. } && step is Send
}

/// The move is a step of a call that stands at `call`.
pub open spec fn is_step_of(mv: WriterMove, call: WriterCall) -> bool {
    mv matches WriterMove::Resume { call: at, .. } && at == call
}

/// The move is a step of a call that stands at `call` after it.
pub open spec fn leads_to(mv: WriterMove, call: WriterCall) -> bool {
    mv matches WriterMove::Resume { next, .. } && next == call
}

/// The move completes a call to flush.
pub open spec fn completes_flush(mv: WriterMove) -> bool {
    mv matches WriterMove::Resume { step, .. } && step is Flushed
}

/// A call to flush stands at `WriterCall::FlushRest` only where the move before has
/// brought it there.
pub open spec fn flush_in_order(moves: Seq<WriterMove>) -> bool {
    forall|i: int|
        0 <= i < moves.len() && is_step_of(#[trigger] moves[i], WriterCall::FlushRest) ==> i > 0
            && leads_to(moves[i - 1], WriterCall::FlushRest)
}

/// The move is a step of a call to write.
pub open spec fn is_write(mv: WriterMove) -> bool {
    is_step_of(mv, WriterCall::Write) || is_step_of(mv, WriterCall::WriteTaken)
}

/// The move is a step of a call to flush.
pub open spec fn is_flush(mv: WriterMove) -> bool {
    is_step_of(mv, WriterCall::Flush) || is_step_of(mv, WriterCall::FlushRest)
}

/// Nothing is written once a flush has begun.
pub open spec fn flush_is_last(moves: Seq<WriterMove>) -> bool {
    forall|i: int, j: int|
        0 <= i < j < moves.len() && is_flush(#[trigger] moves[i]) ==> !is_write(
            #[trigger] moves[j],
        )
}

/// A step neither loses nor makes up bytes, nor changes their order.
pub proof fn law_step_conserves(before: WriterView, mv: WriterMove, after: WriterView)
    requires
        writer_moves(before, mv, after),
    ensures
        handed(mv) + after.buffer == before.buffer + taken(mv),
{
    assert(handed(mv) + after.buffer =~= before.buffer + taken(mv));
}

/// Whatever happens to a writer, it neither loses nor makes up bytes, nor changes their
/// order: what it has handed out, followed by what it holds, is what it held at first,
/// followed by what it has taken.
pub proof fn law_writer_conserves(states: Seq<WriterView>, moves: Seq<WriterMove>)
    requires
        is_trace(states, moves),
    ensures
        all_handed(moves) + states.last().buffer == states[0].buffer + all_taken(moves),
    decreases moves.len(),
{
    reveal_with_fuel(Seq::flatten, 2);
    let ins = moves.map_values(|mv: WriterMove| taken(mv));
    let outs = moves.map_values(|mv: WriterMove| handed(mv));
    if moves.len() == 0 {
        assert(ins.flatten() =~= Seq::empty());
        assert(outs.flatten() =~= Seq::empty());
        assert(all_handed(moves) + states.last().buffer =~= states[0].buffer + all_taken(moves));
    } else {
        let rest_states = states.drop_first();
        let rest = moves.drop_first();
        assert forall|i: int| 0 <= i < rest.len() implies writer_moves(
            rest_states[i],
            #[trigger] rest[i],
            rest_states[i + 1],
        ) by {
            assert(rest[i] == moves[i + 1]);
        }
        law_writer_conserves(rest_states, rest);
        assert(writer_moves(states[0], moves[0], states[1]));
        law_step_conserves(states[0], moves[0], states[1]);
        assert(ins.drop_first() =~= rest.map_values(|mv: WriterMove| taken(mv)));
        assert(outs.drop_first() =~= rest.map_values(|mv: WriterMove| handed(mv)));
        let end = states.last().buffer;
        assert(all_handed(moves) + end =~= handed(moves[0]) + (all_handed(rest) + end));
        assert(handed(moves[0]) + (states[1].buffer + all_taken(rest)) =~= (handed(moves[0])
            + states[1].buffer) + all_taken(rest));
        assert((states[0].buffer + taken(moves[0])) + all_taken(rest) =~= states[0].buffer
            + all_taken(moves));
    }
}

/// A writer whose flush is complete has handed out exactly what it held at first and
/// what it has taken, holds nothing more, and is not sending.
pub proof fn law_flush_completes(states: Seq<WriterView>, moves: Seq<WriterMove>)
    requires
        is_trace(states, moves),
        flush_in_order(moves),
        moves.len() > 0,
        completes_flush(moves.last()),
    ensures
        all_handed(moves) == states[0].buffer + all_taken(moves),
        states.last().buffer.len() == 0,
        !states.last().sending,
{
    let end = moves.len() - 1;
    law_writer_conserves(states, moves);
    assert(writer_moves(states[end], moves[end], states[end + 1]));
    if is_step_of(moves[end], WriterCall::FlushRest) {
        lemma_flush_rest_empty(states, moves, end - 1);
    }
    assert(states.last().buffer =~= Seq::empty());
    assert(all_handed(moves) + states.last().buffer =~= all_handed(moves));
}

/// A call to flush that has handed out the rest leaves the writer empty until it ends.
proof fn lemma_flush_rest_empty(states: Seq<WriterView>, moves: Seq<WriterMove>, i: int)
    requires
        is_trace(states, moves),
        flush_in_order(moves),
        0 <= i < moves.len(),
        leads_to(moves[i], WriterCall::FlushRest),
    ensures
        states[i + 1].buffer.len() == 0,
    decreases i,
{
    assert(writer_moves(states[i], moves[i], states[i + 1]));
    if is_step_of(moves[i], WriterCall::FlushRest) {
        lemma_flush_rest_empty(states, moves, i - 1);
    }
    law_flush_rest_empty(states[i], moves[i], states[i + 1]);
}

/// A call to flush that has handed out the rest finds the writer empty until it ends.
pub proof fn law_flush_rest_empty(before: WriterView, mv: WriterMove, after: WriterView)
    requires
        writer_moves(before, mv, after),
        leads_to(mv, WriterCall::FlushRest),
        is_step_of(mv, WriterCall::Flush) || before.buffer.len() == 0,
    ensures
        after.buffer.len() == 0,
{
}

/// The pieces that the writer hands out, put together, are what it hands out.
pub proof fn law_pieces_are_handed(moves: Seq<WriterMove>)
    ensures
        sent_pieces(moves).flatten() == all_handed(moves),
    decreases moves.len(),
{
    reveal_with_fuel(Seq::flatten, 2);
    let outs = moves.map_values(|mv: WriterMove| handed(mv));
    if moves.len() == 0 {
        assert(outs.flatten() =~= Seq::empty());
    } else {
        let rest = moves.drop_first();
        law_pieces_are_handed(rest);
        assert(outs.drop_first() =~= rest.map_values(|mv: WriterMove| handed(mv)));
        if hands_out(moves[0]) {
            assert(sent_pieces(moves).drop_first() =~= sent_pieces(rest));
        } else {
            assert(handed(moves[0]) + all_handed(rest) =~= all_handed(rest));
        }
    }
}

/// Over writes and one last flush, all pieces but the last have `chunk_size` bytes and
/// the last has at least one; put together they are what the writer held at first and
/// what it has taken, and there are as many as the number of those bytes, divided by
/// `chunk_size` and rounded up.
pub proof fn law_pieces_sent(states: Seq<WriterView>, moves: Seq<WriterMove>)
    requires
        is_trace(states, moves),
        states[0].chunk_size > 0,
        flush_in_order(moves),
        flush_is_last(moves),
        moves.len() > 0,
        completes_flush(moves.last()),
    ensures
        sent_pieces(moves).flatten() == states[0].buffer + all_taken(moves),
        forall|i: int|
            0 <= i < sent_pieces(moves).len() ==> 0 < (#[trigger] sent_pieces(moves)[i]).len()
                <= states[0].chunk_size,
        forall|i: int|
            0 <= i < sent_pieces(moves).len() - 1 ==> (#[trigger] sent_pieces(moves)[i]).len()
                == states[0].chunk_size,
        sent_pieces(moves).len() == (states[0].buffer.len() + all_taken(moves).len()
            + states[0].chunk_size - 1) / states[0].chunk_size as int,
{
    law_flush_completes(states, moves);
    law_pieces_are_handed(moves);
    lemma_pieces_cut(states, moves);
    crate::pieces::law_piece_count(sent_pieces(moves), states[0].chunk_size);
}

/// Without its first move a trace is one still, and the size of a piece stays.
proof fn lemma_trace_rest(states: Seq<WriterView>, moves: Seq<WriterMove>)
    requires
        is_trace(states, moves),
        moves.len() > 0,
    ensures
        is_trace(states.drop_first(), moves.drop_first()),
        writer_moves(states[0], moves[0], states[1]),
        states.drop_first()[0] == states[1],
        states[1].chunk_size == states[0].chunk_size,
{
    let rest_states = states.drop_first();
    let rest = moves.drop_first();
    assert forall|i: int| 0 <= i < rest.len() implies writer_moves(
        rest_states[i],
        #[trigger] rest[i],
        rest_states[i + 1],
    ) by {
        assert(rest[i] == moves[i + 1]);
    }
    assert(writer_moves(states[0], moves[0], states[1]));
}

/// An empty writer to which nothing is written hands out no piece.
proof fn lemma_no_pieces(states: Seq<WriterView>, moves: Seq<WriterMove>)
    requires
        is_trace(states, moves),
        states[0].chunk_size > 0,
        states[0].buffer.len() == 0,
        forall|j: int| 0 <= j < moves.len() ==> !is_write(#[trigger] moves[j]),
    ensures
        sent_pieces(moves).len() == 0,
    decreases moves.len(),
{
    if moves.len() > 0 {
        lemma_trace_rest(states, moves);
        assert(!is_write(moves[0]));
        lemma_no_pieces(states.drop_first(), moves.drop_first());
    }
}

/// Over writes and one last flush the pieces are cut to `chunk_size` bytes.
proof fn lemma_pieces_cut(states: Seq<WriterView>, moves: Seq<WriterMove>)
    requires
        is_trace(states, moves),
        states[0].chunk_size > 0,
        flush_is_last(moves),
    ensures
        crate::pieces::are_cut(sent_pieces(moves), states[0].chunk_size),
    decreases moves.len(),
{
    if moves.len() > 0 {
        let rest_states = states.drop_first();
        let rest = moves.drop_first();
        let size = states[0].chunk_size;
        lemma_trace_rest(states, moves);
        assert(flush_is_last(rest)) by {
            assert forall|i: int, j: int|
                0 <= i < j < rest.len() && is_flush(#[trigger] rest[i]) implies !is_write(
                #[trigger] rest[j],
            ) by {
                assert(rest[i] == moves[i + 1] && rest[j] == moves[j + 1]);
            }
        }
        lemma_pieces_cut(rest_states, rest);
        if hands_out(moves[0]) {
            law_piece_sizes(states[0], moves[0], states[1]);
            if handed(moves[0]).len() < size {
                assert forall|j: int| 0 <= j < rest.len() implies !is_write(
                    #[trigger] rest[j],
                ) by {
                    assert(is_flush(moves[0]) && rest[j] == moves[j + 1]);
                }
                lemma_no_pieces(rest_states, rest);
            }
            let all = sent_pieces(moves);
            assert(all.drop_first() =~= sent_pieces(rest));
            assert forall|i: int| 0 <= i < all.len() implies 0 < (#[trigger] all[i]).len()
                <= size by {
                if i > 0 {
                    assert(all[i] == sent_pieces(rest)[i - 1]);
                }
            }
            assert forall|i: int| 0 <= i < all.len() - 1 implies (#[trigger] all[i]).len()
                == size by {
                if i > 0 {
                    assert(all[i] == sent_pieces(rest)[i - 1]);
                }
            }
        }
    }
}

/// Only the last piece of a flush can be shorter than the others, and none is empty; a
/// piece is handed out only when no other is being sent.
pub proof fn law_piece_sizes(before: WriterView, mv: WriterMove, after: WriterView)
    requires
        writer_moves(before, mv, after),
        before.chunk_size > 0,
        mv matches WriterMove::Resume { step, .. } && step is Send,
    ensures
        mv matches WriterMove::Resume { call, polled, next, .. } && if call is Flush
            && next is FlushRest {
            0 < handed(mv).len() < before.chunk_size
        } else {
            handed(mv).len() == before.chunk_size
        },
        mv matches WriterMove::Resume { polled, .. } && !before.settled(polled).sending,
        after.sending,
{
}

/// Sending full pieces never fails. Where there is nothing left to do, nothing is being
/// sent and less than a piece is held; where the writer has to wait, a piece is being
/// sent.
pub proof fn law_send_step(
    before: WriterView,
    polled: SendPoll,
    after: WriterView,
    res: Option<WriterStep>,
)
    requires
        send_steps(before, polled, after, res),
    ensures
        res matches Some(step) ==> step is Send || step is Poll || step is Pending,
        res is None ==> !after.sending && after.buffer.len() < after.chunk_size,
        res is Some ==> after.sending,
        after.chunk_size == before.chunk_size,
        after.closed == before.closed,
{
}

/// However many steps are made to send full pieces, what they send, followed by what
/// the writer holds then, is what it held at first; each piece has `chunk_size` bytes,
/// and neither that size nor whether the writer is closed changes.
pub proof fn law_send_run(
    states: Seq<WriterView>,
    polls: Seq<SendPoll>,
    results: Seq<Option<WriterStep>>,
)
    requires
        is_send_run(states, polls, results),
    ensures
        run_pieces(results).flatten() + states.last().buffer == states[0].buffer,
        forall|i: int|
            0 <= i < run_pieces(results).len() ==> (#[trigger] run_pieces(results)[i]).len()
                == states[0].chunk_size,
        states.last().chunk_size == states[0].chunk_size,
        states.last().closed == states[0].closed,
    decreases results.len(),
{
    reveal_with_fuel(Seq::flatten, 2);
    let all = run_pieces(results);
    let end = states.last().buffer;
    if results.len() == 0 {
        assert(all.flatten() + end =~= states[0].buffer);
    } else {
        let rest_states = states.drop_first();
        let rest_polls = polls.drop_first();
        let rest = results.drop_first();
        assert forall|i: int| 0 <= i < rest.len() implies send_steps(
            rest_states[i],
            rest_polls[i],
            rest_states[i + 1],
            #[trigger] rest[i],
        ) by {
            assert(rest[i] == results[i + 1]);
        }
        law_send_run(rest_states, rest_polls, rest);
        assert(send_steps(states[0], polls[0], states[1], results[0]));
        if let Some(WriterStep::Send(reply)) = results[0] {
            let later = run_pieces(rest);
            assert(all.drop_first() =~= later);
            assert(all.flatten() + end =~= reply.chunk@ + (later.flatten() + end));
            assert(reply.chunk@ + states[1].buffer =~= states[0].buffer);
            assert forall|i: int| 0 <= i < all.len() implies (#[trigger] all[i]).len()
                == states[0].chunk_size by {
                if i > 0 {
                    assert(all[i] == later[i - 1]);
                }
            }
        }
    }
}

/// The writer takes bytes only when nothing is being sent and it holds less than a
/// piece, and a closed one takes none, so what it holds is bounded by a piece and what
/// one call brings.
pub proof fn law_writer_bounded(before: WriterView, mv: WriterMove, after: WriterView)
    requires
        writer_moves(before, mv, after),
        taken(mv).len() > 0,
    ensures
        !before.closed,
        before.buffer.len() < before.chunk_size,
        after.buffer.len() < before.chunk_size + taken(mv).len(),
        mv matches WriterMove::Resume { polled, .. } && !before.settled(polled).sending,
{
}

/// A closed writer stays closed.
pub proof fn law_closed_stays(before: WriterView, mv: WriterMove, after: WriterView)
    requires
        writer_moves(before, mv, after),
        before.closed,
    ensures
        after.closed,
        taken(mv).len() == 0,
{
}

} // verus!
