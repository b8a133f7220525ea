//! What holds of a dispatcher whatever it is told.

use crate::buffer::{
    allocated_at_least, law_growing_again_changes_nothing, law_new_buffer_grows_by_nothing,
    ready_to_fill, ReadWriteBuf, HW_BUFFER_SIZE, LW_BUFFER_SIZE,
};
use crate::dispatcher::Dispatcher;
use crate::model::{
    bad_request_bytes, continue_bytes, lemma_fixed_responses, Action, Event, Output, Phase, State,
    Then,
};
use crate::reader::{received, DispatchReader, DispatchReaderState, ReadStep};
use crate::service::{DispatchServiceHandler, HandlerStage};
use crate::types::{
    BodySize, DispatchError, Feed, IoErrorKind, IoFailure, PayloadItem, PayloadType, Poll, Protocol,
    Request,
};
use crate::writer::{DispatchWriter, WriterStage};
use vstd::prelude::*;

verus! {

/// What a dispatcher came to by being told one thing after the other, and what went
/// in and out on the way.
pub struct Run<T: Protocol> {
    pub state: State<T>,
    /// The bytes encoded.
    pub queued: Seq<u8>,
    /// The bytes that the transport took.
    pub sent: Seq<u8>,
    /// The bytes that the transport gave.
    pub received: Seq<u8>,
    /// The bytes that were decoded.
    pub decoded: Seq<u8>,
    /// What was put into payload channels.
    pub fed: Seq<Feed<T::Chunk>>,
}

/// The bytes that an event adds to those to be sent.
pub open spec fn queued<T: Protocol>(state: State<T>, event: Event<'_, T>) -> Seq<u8> {
    match (state.phase, event) {
        (Phase::Decoding(_), Event::Decoded { message: Err(_), .. }) => bad_request_bytes(),
        (Phase::Expecting { .. }, Event::Expected(Poll::Ready(Ok(_)))) => continue_bytes(),
        (Phase::Responding { .. }, Event::HeadEncoded(Ok((bytes, _)))) => bytes@,
        (
            Phase::Sending {
                writer: DispatchWriter { stage: WriterStage::Encoding { .. }, .. },
                ..
            },
            Event::ChunkEncoded(Ok(bytes)),
        ) => bytes@,
        _ => Seq::empty(),
    }
}

/// The bytes that an event says the transport took.
pub open spec fn sent<T: Protocol>(state: State<T>, event: Event<'_, T>) -> Seq<u8> {
    match (state.phase, event) {
        (
            Phase::Sending {
                writer: DispatchWriter { stage: WriterStage::Flushing { .. }, .. },
                ..
            },
            Event::Written(Poll::Ready(Ok(count))),
        ) => state.unsent().take(count as int),
        _ => Seq::empty(),
    }
}

/// The bytes that an event brings from the transport.
pub open spec fn brought<T: Protocol>(state: State<T>, event: Event<'_, T>) -> Seq<u8> {
    match (state.phase, event) {
        (Phase::Reading(_), Event::Read(io)) => received(io),
        (
            Phase::Serving {
                handler: DispatchServiceHandler { stage: HandlerStage::Reading { .. }, .. },
                ..
            },
            Event::Read(io),
        ) => received(io),
        _ => Seq::empty(),
    }
}

/// The bytes that an event says were decoded.
pub open spec fn used<T: Protocol>(state: State<T>, event: Event<'_, T>) -> Seq<u8> {
    match (state.phase, event) {
        (Phase::Decoding(_), Event::Decoded { consumed, .. }) => state.read_buf.take(
            consumed as int,
        ),
        (
            Phase::Serving {
                handler: DispatchServiceHandler { stage: HandlerStage::Decoding { .. }, .. },
                ..
            },
            Event::PayloadDecoded { consumed, .. },
        ) => state.read_buf.take(consumed as int),
        _ => Seq::empty(),
    }
}

/// What an event has put into the payload channel.
pub open spec fn fed<T: Protocol>(state: State<T>, event: Event<'_, T>) -> Seq<Feed<T::Chunk>> {
    match state.step(event).1.feed {
        Some(feed) => seq![feed],
        None => Seq::empty(),
    }
}

/// What a dispatcher in state `start` comes to by being told `events`.
pub open spec fn run<'a, T: Protocol>(start: State<T>, events: Seq<Event<'a, T>>) -> Run<T>
    decreases events.len(),
{
    if events.len() == 0 {
        Run {
            state: start,
            queued: Seq::empty(),
            sent: Seq::empty(),
            received: Seq::empty(),
            decoded: Seq::empty(),
            fed: Seq::empty(),
        }
    } else {
        let before = run(start, events.drop_last());
        let event = events.last();
        Run {
            state: before.state.step(event).0,
            queued: before.queued + queued(before.state, event),
            sent: before.sent + sent(before.state, event),
            received: before.received + brought(before.state, event),
            decoded: before.decoded + used(before.state, event),
            fed: before.fed + fed(before.state, event),
        }
    }
}

/// Whether each of `events` can be told to the dispatcher when its turn comes.
pub open spec fn admissible<'a, T: Protocol>(start: State<T>, events: Seq<Event<'a, T>>) -> bool
    decreases events.len(),
{
    events.len() > 0 ==> {
        &&& admissible(start, events.drop_last())
        &&& run(start, events.drop_last()).state.admits(events.last())
    }
}

/// Whether the dispatcher is in `region` before, between and after `events`.
pub open spec fn stays<'a, T: Protocol>(
    start: State<T>,
    events: Seq<Event<'a, T>>,
    region: spec_fn(State<T>) -> bool,
) -> bool
    decreases events.len(),
{
    &&& region(run(start, events).state)
    &&& events.len() > 0 ==> stays(start, events.drop_last(), region)
}

/// Whether this is a dispatcher that was told nothing yet.
pub open spec fn fresh<T: Protocol>(state: State<T>) -> bool {
    &&& state.phase == Phase::<T>::Reading(DispatchReader { read_some: false })
    &&& state.read_buf.len() == 0
    &&& state.write_buf.len() == 0
}

/// The invariant is kept by every event that can be told.
pub proof fn law_invariant_kept<T: Protocol>(state: State<T>, event: Event<'_, T>)
    requires
        state.inv(),
        state.admits(event),
    ensures
        state.step(event).0.inv(),
{
    lemma_fixed_responses();
}

/// Whatever a dispatcher is told, it stays with its peer, its handlers and its limits.
pub proof fn law_connection_fixed<T: Protocol>(state: State<T>, event: Event<'_, T>)
    ensures
        state.step(event).0.peer_addr == state.peer_addr,
        state.step(event).0.upgradeable == state.upgradeable,
        state.step(event).0.max_buffer_size == state.max_buffer_size,
{
}

/// What a dispatcher does not wait for leaves it as it is, and one that has ended waits
/// for nothing.
pub proof fn law_out_of_turn<T: Protocol>(state: State<T>, event: Event<'_, T>)
    ensures
        state.step(event).1.action is OutOfTurn ==> state.step(event).0 == state && state.step(
            event,
        ).1.feed is None,
        state.phase is Ended ==> state.step(event).1.action is OutOfTurn,
        state.step(event).1.action is Done ==> state.step(event).0.phase is Ended,
{
}

/// Whether an event is what an action asks to be told.
pub open spec fn answers<T: Protocol>(action: Action<T>, event: Event<'_, T>) -> bool {
    match action {
        Action::Wait => event is Wake,
        Action::Read { .. } => event is Read,
        Action::Decode => event is Decoded,
        Action::CallUpgrade(_) | Action::PollUpgrade => event is Upgraded,
        Action::CallExpect(_) | Action::PollExpect => event is Expected,
        Action::CallService(_) | Action::PollService => event is Served,
        Action::RenderError(_) => event is Rendered,
        Action::NeedRead => event is Status,
        Action::DecodePayload => event is PayloadDecoded,
        Action::EncodeHead(_, _) => event is HeadEncoded,
        Action::PollBody => event is Body,
        Action::EncodeChunk(_) => event is ChunkEncoded,
        Action::Write => event is Written,
        Action::ShutDown => event is ShutDown,
        Action::Done(_) | Action::OutOfTurn => false,
    }
}

/// Whether a dispatcher is where it is after it asked for an action.
spec fn due<T: Protocol>(state: State<T>, action: Action<T>) -> bool {
    match action {
        Action::Wait => match state.phase {
            Phase::Reading(_) | Phase::Upgrading | Phase::Expecting { .. } | Phase::Closing(
                _,
            ) => true,
            Phase::Serving { handler, .. } => handler.stage is Paused,
            Phase::Sending { writer, .. } => writer.stage is Paused,
            _ => false,
        },
        Action::Read { .. } => match state.phase {
            Phase::Reading(_) => true,
            Phase::Serving { handler, .. } => handler.stage is Reading,
            _ => false,
        },
        Action::Decode => state.phase is Decoding,
        Action::CallUpgrade(_) | Action::PollUpgrade => state.phase is Upgrading,
        Action::CallExpect(_) | Action::PollExpect => state.phase is Expecting,
        Action::CallService(_) | Action::PollService => state.phase is Serving
            && state.phase->handler.stage is Calling,
        Action::RenderError(_) => state.phase is Rendering,
        Action::NeedRead => state.phase is Serving && state.phase->handler.stage is Asking,
        Action::DecodePayload => state.phase is Serving && state.phase->handler.stage is Decoding,
        Action::EncodeHead(_, _) => state.phase is Responding,
        Action::PollBody => state.phase is Sending
            && state.phase->Sending_writer.stage is Filling,
        Action::EncodeChunk(_) => state.phase is Sending
            && state.phase->Sending_writer.stage is Encoding,
        Action::Write => state.phase is Sending && state.phase->Sending_writer.stage is Flushing,
        Action::ShutDown => state.phase is Closing,
        Action::Done(_) | Action::OutOfTurn => true,
    }
}

/// A dispatcher asks for what it is ready to be told of.
proof fn lemma_due<T: Protocol>(state: State<T>, event: Event<'_, T>)
    ensures
        due(state.step(event).0, state.step(event).1.action),
{
}

/// A dispatcher takes what it is ready to be told of.
proof fn lemma_due_taken<T: Protocol>(state: State<T>, action: Action<T>, reply: Event<'_, T>)
    requires
        due(state, action),
        answers(action, reply),
    ensures
        !(state.step(reply).1.action is OutOfTurn),
{
}

/// What a dispatcher asked to be told is never out of turn when it is told next.
pub proof fn law_answers_in_turn<T: Protocol>(
    state: State<T>,
    event: Event<'_, T>,
    reply: Event<'_, T>,
)
    requires
        answers(state.step(event).1.action, reply),
    ensures
        !(state.step(event).0.step(reply).1.action is OutOfTurn),
{
    let (next, output) = state.step(event);
    lemma_due(state, event);
    lemma_due_taken(next, output.action, reply);
}

/// The invariant holds after any run.
pub proof fn law_invariant_holds<'a, T: Protocol>(start: State<T>, events: Seq<Event<'a, T>>)
    requires
        start.inv(),
        admissible(start, events),
    ensures
        run(start, events).state.inv(),
    decreases events.len(),
{
    if events.len() > 0 {
        law_invariant_holds(start, events.drop_last());
        law_invariant_kept(run(start, events.drop_last()).state, events.last());
    }
}

/// With each event, what was to be sent and what it adds is what is sent by it and what
/// is left to be sent. One that ends it all may leave unsaid what was written last.
proof fn lemma_bytes_sent<T: Protocol>(state: State<T>, event: Event<'_, T>)
    requires
        state.inv(),
        state.admits(event),
    ensures
        !(state.step(event).0.phase is Ended) ==> state.unsent() + queued(state, event) == sent(
            state,
            event,
        ) + state.step(event).0.unsent(),
        sent(state, event).is_prefix_of(state.unsent()),
{
    let next = state.step(event).0;
    let before = state.unsent() + queued(state, event);
    let after = sent(state, event) + next.unsent();
    if !(next.phase is Ended) {
        if let Phase::Sending { writer, .. } = state.phase {
            if let WriterStage::Flushing { written } = writer.stage {
                if let Event::Written(Poll::Ready(Ok(count))) = event {
                    assert(next.unsent() =~= state.write_buf.skip(written + count));
                }
                if let Event::Written(Poll::Pending) = event {
                    assert(next.unsent() =~= state.unsent());
                }
            }
        }
        assert(before =~= after);
    }
}

/// Concatenation is associative.
proof fn lemma_concat(first: Seq<u8>, second: Seq<u8>, third: Seq<u8>)
    ensures
        first + (second + third) == (first + second) + third,
{
    assert(first + (second + third) =~= (first + second) + third);
}

/// Where `all` came in, of which `out` went out and `left` is left, and `more` comes in,
/// of which with what was left `gone` goes out and `rest` is left, the sum is right again.
proof fn lemma_flow(
    all: Seq<u8>,
    out: Seq<u8>,
    left: Seq<u8>,
    more: Seq<u8>,
    gone: Seq<u8>,
    rest: Seq<u8>,
)
    requires
        all == out + left,
    ensures
        left + more == gone + rest ==> all + more == (out + gone) + rest,
{
    if left + more == gone + rest {
        lemma_concat(out, left, more);
        lemma_concat(out, gone, rest);
    }
}

/// Where `all` came in, of which `out` went out and `left` is left, whatever goes out of
/// that is what came in next.
proof fn lemma_prefix_extended(
    all: Seq<u8>,
    out: Seq<u8>,
    left: Seq<u8>,
    more: Seq<u8>,
    gone: Seq<u8>,
)
    requires
        all == out + left,
        gone.is_prefix_of(left),
    ensures
        (out + gone).is_prefix_of(all + more),
{
    assert(left.take(gone.len() as int) =~= gone);
    assert(out + gone =~= (all + more).take((out + gone).len() as int));
}

/// Bytes are sent as they were encoded, each once and in order: what the transport took is
/// always the beginning of what was encoded, and, as long as the dispatcher has not ended,
/// what it did not take is still to be sent.
pub proof fn law_bytes_sent_in_order<'a, T: Protocol>(start: State<T>, events: Seq<Event<'a, T>>)
    requires
        start.inv(),
        admissible(start, events),
    ensures
        run(start, events).sent.is_prefix_of(start.unsent() + run(start, events).queued),
        !(run(start, events).state.phase is Ended) ==> start.unsent() + run(start, events).queued
            == run(start, events).sent + run(start, events).state.unsent(),
    decreases events.len(),
{
    let end = run(start, events);
    if events.len() == 0 {
        assert(start.unsent() + end.queued =~= end.sent + end.state.unsent());
    } else {
        let before = run(start, events.drop_last());
        let event = events.last();
        law_bytes_sent_in_order(start, events.drop_last());
        law_invariant_holds(start, events.drop_last());
        law_out_of_turn(before.state, event);
        lemma_bytes_sent(before.state, event);
        if before.state.phase is Ended {
            assert(end.sent =~= before.sent);
            assert(end.queued =~= before.queued);
        } else {
            lemma_prefix_extended(
                start.unsent() + before.queued,
                before.sent,
                before.state.unsent(),
                queued(before.state, event),
                sent(before.state, event),
            );
            lemma_flow(
                start.unsent() + before.queued,
                before.sent,
                before.state.unsent(),
                queued(before.state, event),
                sent(before.state, event),
                end.state.unsent(),
            );
            lemma_concat(start.unsent(), before.queued, queued(before.state, event));
        }
    }
}

/// Except while it is sending, a dispatcher has sent everything that was encoded: each
/// response is out before the next request is read, and an interim response before the
/// service is called.
pub proof fn law_nothing_left_behind<'a, T: Protocol>(start: State<T>, events: Seq<Event<'a, T>>)
    requires
        fresh(start),
        admissible(start, events),
        !(run(start, events).state.phase is Sending),
        !(run(start, events).state.phase is Ended),
    ensures
        run(start, events).sent == run(start, events).queued,
{
    let end = run(start, events);
    law_bytes_sent_in_order(start, events);
    law_invariant_holds(start, events);
    assert(start.unsent() + end.queued =~= end.queued);
    assert(end.sent + end.state.unsent() =~= end.sent);
}

/// With each event, what was to be decoded and what it brings is what is decoded by it and
/// what is left to be decoded.
proof fn lemma_bytes_decoded<T: Protocol>(state: State<T>, event: Event<'_, T>)
    requires
        state.admits(event),
    ensures
        state.read_buf + brought(state, event) == used(state, event) + state.step(event).0.read_buf,
{
    let before = state.read_buf + brought(state, event);
    let after = used(state, event) + state.step(event).0.read_buf;
    assert(before.len() == after.len());
    assert(before =~= after);
}

/// Bytes are decoded as they were read, each once and in order: what was read is what was
/// decoded and what is still in the read buffer behind it.
pub proof fn law_bytes_decoded_in_order<'a, T: Protocol>(
    start: State<T>,
    events: Seq<Event<'a, T>>,
)
    requires
        admissible(start, events),
    ensures
        start.read_buf + run(start, events).received == run(start, events).decoded + run(
            start,
            events,
        ).state.read_buf,
    decreases events.len(),
{
    let end = run(start, events);
    if events.len() == 0 {
        assert(start.read_buf + end.received =~= end.decoded + end.state.read_buf);
    } else {
        let before = run(start, events.drop_last());
        let event = events.last();
        law_bytes_decoded_in_order(start, events.drop_last());
        lemma_bytes_decoded(before.state, event);
        lemma_flow(
            start.read_buf + before.received,
            before.decoded,
            before.state.read_buf,
            brought(before.state, event),
            used(before.state, event),
            end.state.read_buf,
        );
        lemma_concat(start.read_buf, before.received, brought(before.state, event));
    }
}

/// What a dispatcher answers to the last of `events`.
pub open spec fn last_output<'a, T: Protocol>(
    start: State<T>,
    events: Seq<Event<'a, T>>,
) -> Output<T>
    recommends
        events.len() > 0,
{
    run(start, events.drop_last()).state.step(events.last()).1
}

/// Whether the writer has a body left to send.
pub open spec fn body_left<T: Protocol>(state: State<T>) -> bool {
    match state.phase {
        Phase::Sending { writer, .. } => writer.payload,
        _ => false,
    }
}

/// A response is behind the dispatcher only when its body is over and every byte of it is
/// out. Until then, or until something fails, it goes on sending.
pub proof fn law_sent_whole<T: Protocol>(state: State<T>, event: Event<'_, T>)
    requires
        state.inv(),
        state.admits(event),
        state.phase is Sending,
        !(state.step(event).0.phase is Sending),
        !(state.step(event).0.phase is Ended),
    ensures
        state.step(event).0.write_buf.len() == 0,
        body_left(state) ==> {
            &&& event is ChunkEncoded
            &&& state.phase->Sending_writer.stage == WriterStage::Encoding { last: true }
        },
        state.phase->then is Serve ==> state.step(event).0.phase is Serving,
        state.phase->then is Read ==> state.step(event).0.phase is Reading,
        state.phase->then is Close || state.phase->then is Refuse ==> state.step(
            event,
        ).0.phase is Closing,
{
}

/// A response body is asked for more only while less than `HW_BUFFER_SIZE` is buffered.
pub proof fn law_body_held_back<T: Protocol>(state: State<T>, event: Event<'_, T>)
    ensures
        state.step(event).1.action is PollBody ==> state.step(event).0.write_buf.len()
            < HW_BUFFER_SIZE,
{
}

/// What the transport takes is gone from what is to be sent, byte for byte; a transport
/// that takes nothing ends the dispatcher.
pub proof fn law_writing_progresses<T: Protocol>(state: State<T>, count: usize)
    requires
        state.inv(),
        state.admits(Event::Written(Poll::Ready(Ok(count)))),
        state.phase is Sending,
        state.phase->Sending_writer.stage is Flushing,
    ensures
        count > 0 ==> state.step(Event::Written(Poll::Ready(Ok(count)))).0.unsent()
            == state.unsent().skip(count as int),
        count == 0 ==> state.step(Event::Written(Poll::Ready(Ok(count)))).1.action
            == Action::<T>::Done(
            Err(
                DispatchError::Io(
                    IoFailure::Found(IoErrorKind::WriteZero),
                ),
            ),
        ),
{
    let written = state.phase->Sending_writer.stage->Flushing_written;
    if count > 0 {
        assert(state.write_buf.skip(written + count) =~= state.unsent().skip(count as int));
    }
}

/// More than `max_buffer_size` bytes never wait to be decoded as a request while more may
/// come: a read that brings the buffer over that closes the connection.
pub proof fn law_reading_bounded<T: Protocol>(state: State<T>, event: Event<'_, T>)
    requires
        state.inv(),
        state.admits(event),
        state.phase is Reading,
    ensures
        ({
            let next = state.step(event).0;
            &&& brought(state, event).len() > 0 && next.read_buf.len() > state.max_buffer_size
                <==> brought(state, event).len() > 0 && next.phase is Closing
            &&& next.phase == Phase::<T>::Decoding(DispatchReaderState::Partial)
                ==> next.read_buf.len() <= state.max_buffer_size
        }),
{
}

/// A reader finds that all has been read exactly when the transport says so by a read of
/// no bytes, whatever is buffered.
pub proof fn law_all_read_at_end_of_stream<E>(
    reader: DispatchReader,
    held: nat,
    max_buffer_size: usize,
    io: Poll<Result<&[u8], E>>,
)
    ensures
        reader.after(held, max_buffer_size, io) == ReadStep::<E>::Ready(
            Ok(DispatchReaderState::All),
        ) <==> (io matches Poll::Ready(Ok(data)) && data@.len() == 0),
{
}

/// Where a dispatcher asks for a read, its read buffer has the room that it names, and that
/// is at least `LW_BUFFER_SIZE` bytes. So a read of no bytes is never for want of room, and
/// only such a read has a request decoded from all that there is.
pub proof fn law_reads_have_room<T: Protocol>(
    before: Dispatcher<T>,
    event: Event<'_, T>,
    after: Dispatcher<T>,
    output: Output<T>,
    io: Poll<Result<&[u8], T::IoError>>,
)
    requires
        after@ == before@.step(event).0,
        output.realizes(before@.step(event).1),
        after.has_room_for(output.action),
        output.action is Read,
    ensures
        after.read_buffer().roomy(output.action->room),
        output.action->room >= LW_BUFFER_SIZE,
        ready_to_fill(after.read_buffer()),
        after@.phase is Reading ==> {
            after@.step(Event::Read(io)).0.phase == Phase::<T>::Decoding(
                DispatchReaderState::All,
            ) <==> (io matches Poll::Ready(Ok(data)) && data@.len() == 0)
        },
{
    lemma_read_room(before@, event);
}

/// The first read of a dispatcher finds the buffer as it was made: nothing more is
/// allocated, and there is room for `HW_BUFFER_SIZE` bytes.
pub proof fn law_first_read_has_room<T: Protocol>(
    start: Dispatcher<T>,
    after: Dispatcher<T>,
    room: usize,
)
    requires
        start@.read_buf.len() == 0,
        allocated_at_least(start.read_buffer(), HW_BUFFER_SIZE as int),
        after.grew_for(start, Action::Read { room }),
    ensures
        after.read_buffer() == start.read_buffer(),
        room >= HW_BUFFER_SIZE,
{
    start.lemma_buffers();
    law_new_buffer_grows_by_nothing(start.read_buffer(), after.read_buffer(), room);
}

/// A dispatcher that had to wait for its transport finds the room that it made before, and
/// leaves its read buffer as it is.
pub proof fn law_polled_again_makes_no_room<T: Protocol>(
    start: Dispatcher<T>,
    asking: Dispatcher<T>,
    room: usize,
    waiting: Dispatcher<T>,
    again: Dispatcher<T>,
    left: usize,
)
    requires
        asking.grew_for(start, Action::Read { room }),
        waiting.grew_for(asking, Action::Wait),
        again.grew_for(waiting, Action::Read { room: left }),
    ensures
        again.read_buffer() == asking.read_buffer(),
        left == room,
{
    law_growing_again_changes_nothing(
        start.read_buffer(),
        asking.read_buffer(),
        room,
        again.read_buffer(),
        left,
    );
}

/// A read is planned with the least room that growing leaves.
proof fn lemma_read_room<T: Protocol>(state: State<T>, event: Event<'_, T>)
    ensures
        state.step(event).1.action matches Action::Read { room } ==> room == LW_BUFFER_SIZE,
{
}

/// Only a request with a body that runs on goes to the upgrade handler, and only where
/// there is one.
pub proof fn law_upgrade_only_where_possible<T: Protocol>(state: State<T>, event: Event<'_, T>)
    ensures
        state.step(event).1.action is CallUpgrade <==> {
            &&& state.upgradeable
            &&& state.phase is Decoding
            &&& event matches Event::Decoded {
                message: Ok(Some((_, PayloadType::Stream))),
                ..
            }
        },
{
}

/// While the upgrade handler or the expect handler is at work, the dispatcher does nothing
/// else: it neither reads nor writes, and its buffers stay as they are.
pub proof fn law_handlers_polled_exclusively<T: Protocol>(state: State<T>, event: Event<'_, T>)
    requires
        state.phase is Upgrading || state.phase is Expecting,
        state.step(event).0.phase == state.phase,
    ensures
        state.step(event).0 == state,
        state.step(event).1.feed is None,
        ({
            let action = state.step(event).1.action;
            ||| action is Wait
            ||| action is OutOfTurn
            ||| action is PollUpgrade && state.phase is Upgrading
            ||| action is PollExpect && state.phase is Expecting
        }),
{
}

/// Once the upgrade handler has the connection, the dispatcher is done when that is, and
/// never touches the transport again.
pub proof fn law_upgrade_final<'a, T: Protocol>(start: State<T>, events: Seq<Event<'a, T>>)
    requires
        start.phase is Upgrading,
    ensures
        run(start, events).state.phase is Upgrading || run(start, events).state.phase is Ended,
        run(start, events).sent.len() == 0,
        run(start, events).received.len() == 0,
        run(start, events).fed.len() == 0,
    decreases events.len(),
{
    if events.len() > 0 {
        law_upgrade_final(start, events.drop_last());
    }
}

/// What came with the connection goes to the first request that is decoded, and to no other.
pub proof fn law_connect_data_once<T: Protocol>(state: State<T>, event: Event<'_, T>)
    ensures
        state.step(event).0.on_connect_data is Some ==> state.step(event).0.on_connect_data
            == state.on_connect_data,
        ({
            &&& state.phase is Decoding
            &&& event matches Event::Decoded { message: Ok(Some(_)), .. }
        }) ==> state.step(event).0.on_connect_data is None,
        state.on_connect_data is Some ==> {
            match state.step(event).1.action {
                Action::CallUpgrade(request) => request.on_connect_data == state.on_connect_data,
                _ => true,
            }
        },
        state.on_connect_data is Some && state.phase is Decoding ==> {
            match state.step(event).1.action {
                Action::CallExpect(request) => request.on_connect_data == state.on_connect_data,
                Action::CallService(request) => request.on_connect_data == state.on_connect_data,
                _ => true,
            }
        },
{
}

/// Every request that is decoded is handed on with the address of the peer, to exactly one
/// handler.
pub proof fn law_request_handed_on<T: Protocol>(
    state: State<T>,
    consumed: usize,
    request: Request<T>,
    payload_type: PayloadType,
)
    requires
        state.phase is Decoding,
    ensures
        ({
            let event = Event::Decoded { consumed, message: Ok(Some((request, payload_type))) };
            match state.step(event).1.action {
                Action::CallUpgrade(handed) => handed.message == request.message
                    && handed.peer_addr == state.peer_addr,
                Action::CallExpect(handed) => handed.message == request.message
                    && handed.peer_addr == state.peer_addr && request.expect,
                Action::CallService(handed) => handed.message == request.message
                    && handed.peer_addr == state.peer_addr && !request.expect,
                _ => false,
            }
        }),
{
}

/// A service that fails is answered for with the response that stands for its error, just
/// as if it had given that response itself.
pub proof fn law_service_error_answered<T: Protocol>(
    state: State<T>,
    error: T::ServiceError,
    response: T::Response,
    size: BodySize,
)
    requires
        state.phase is Serving,
        state.phase->handler.stage is Calling,
    ensures
        state.step(Event::Served(Poll::Ready(Err(error)))).1.action == Action::<T>::RenderError(
            error,
        ),
        state.step(Event::Served(Poll::Ready(Err(error)))).0.step(Event::Rendered(response, size))
            == state.step(Event::Served(Poll::Ready(Ok((response, size))))),
{
}

/// Whether the service is waited for.
pub open spec fn is_serving<T: Protocol>() -> spec_fn(State<T>) -> bool {
    |state: State<T>| state.phase is Serving
}

/// A payload channel is given a chunk exactly when that chunk was decoded, at once.
pub proof fn law_chunks_fed_as_decoded<T: Protocol>(state: State<T>, event: Event<'_, T>)
    ensures
        forall|chunk: T::Chunk|
            state.step(event).1.feed == Some(Feed::Data(chunk)) <==> {
                &&& state.phase is Serving
                &&& state.phase->handler.stage is Decoding
                &&& event matches Event::PayloadDecoded {
                    item: Ok(Some(PayloadItem::Chunk(decoded))),
                    ..
                }
                &&& decoded == chunk
            },
{
}

/// While the service is waited for, only what is still to be fed is fed, and what is fed
/// last is the last.
proof fn lemma_fed_once<T: Protocol>(state: State<T>, event: Event<'_, T>)
    requires
        state.inv(),
        state.phase is Serving,
        state.step(event).0.phase is Serving,
    ensures
        ({
            let feed = state.step(event).1.feed;
            let still = state.step(event).0.phase->handler.payload;
            &&& feed is Some ==> state.phase->handler.payload
            &&& feed is Some && !(feed->0 is Data) ==> !still
            &&& !state.phase->handler.payload ==> !still
        }),
{
}

/// A payload channel is given chunks and then at most one end or error, and nothing after
/// that; a service whose request has no body is given nothing.
pub proof fn law_nothing_fed_after_the_end<'a, T: Protocol>(
    start: State<T>,
    events: Seq<Event<'a, T>>,
)
    requires
        start.inv(),
        admissible(start, events),
        stays(start, events, is_serving()),
    ensures
        ({
            let fed = run(start, events).fed;
            let still = run(start, events).state.phase->handler.payload;
            &&& forall|i: int| 0 <= i < fed.len() - 1 ==> #[trigger] fed[i] is Data
            &&& fed.len() > 0 && !(fed.last() is Data) ==> !still
            &&& fed.len() > 0 ==> start.phase->handler.payload
            &&& !start.phase->handler.payload ==> !still
        }),
    decreases events.len(),
{
    reveal_with_fuel(stays, 2);
    assert(is_serving()(run(start, events).state));
    if events.len() > 0 {
        law_nothing_fed_after_the_end(start, events.drop_last());
        law_invariant_holds(start, events.drop_last());
        let before = run(start, events.drop_last());
        assert(is_serving()(before.state));
        lemma_fed_once(before.state, events.last());
    }
}

/// Whether the write buffer is sent.
pub open spec fn is_sending<T: Protocol>() -> spec_fn(State<T>) -> bool {
    |state: State<T>| state.phase is Sending
}

/// While a fixed response is sent, nothing is queued behind it and what follows it stays
/// the same.
proof fn lemma_fixed_response_alone<'a, T: Protocol>(
    start: State<T>,
    then: Then<T>,
    events: Seq<Event<'a, T>>,
)
    requires
        start.inv(),
        admissible(start, events),
        start.phase is Sending,
        start.phase->then == then,
        !body_left(start),
        stays(start, events, is_sending()),
    ensures
        run(start, events).state.phase->then == then,
        !body_left(run(start, events).state),
        run(start, events).queued.len() == 0,
    decreases events.len(),
{
    reveal_with_fuel(stays, 2);
    assert(is_sending()(run(start, events).state));
    if events.len() > 0 {
        assert(is_sending()(run(start, events.drop_last()).state));
        lemma_fixed_response_alone(start, then, events.drop_last());
        law_invariant_holds(start, events.drop_last());
        lemma_still_alone(run(start, events.drop_last()).state, events.last());
    }
}

/// While bytes that no body follows are sent, nothing is queued behind them, and what comes
/// after them stays the same until it comes.
proof fn lemma_still_alone<T: Protocol>(state: State<T>, event: Event<'_, T>)
    requires
        state.inv(),
        state.phase is Sending,
        !body_left(state),
    ensures
        queued(state, event).len() == 0,
        ({
            let next = state.step(event).0;
            let then = state.phase->then;
            let output = state.step(event).1;
            ||| next.phase is Sending && next.phase->then == then && !body_left(next)
            ||| (next, output) == next.sent(then)
            ||| next.phase is Ended && (output.action matches Action::Done(Err(error))
                && error is Io)
        }),
{
}

/// A client that holds its body back is asked for it before the service is called: by then
/// exactly the interim response has been sent, and the service gets the request that the
/// expect handler gave back.
pub proof fn law_continue_before_service<'a, T: Protocol>(
    start: State<T>,
    request: Request<T>,
    events: Seq<Event<'a, T>>,
)
    requires
        start.inv(),
        start.phase is Expecting,
        events.len() > 0,
        ({
            let next = start.step(Event::Expected(Poll::Ready(Ok(request)))).0;
            &&& admissible(next, events)
            &&& stays(next, events.drop_last(), is_sending())
            &&& !(run(next, events).state.phase is Sending)
            &&& !(run(next, events).state.phase is Ended)
        }),
    ensures
        ({
            let next = start.step(Event::Expected(Poll::Ready(Ok(request)))).0;
            &&& run(next, events).sent == continue_bytes()
            &&& run(next, events).state.phase is Serving
            &&& last_output(next, events).action == Action::<T>::CallService(request)
        }),
{
    lemma_fixed_responses();
    let next = start.step(Event::Expected(Poll::Ready(Ok(request)))).0;
    law_invariant_kept(start, Event::Expected(Poll::Ready(Ok(request))));
    assert(next.unsent() =~= continue_bytes());
    lemma_fixed_response_out(
        next,
        Then::Serve { request, has_payload: start.phase->Expecting_has_payload },
        events,
    );
}

/// A fixed response that is behind the dispatcher is out, and what comes after it comes.
proof fn lemma_fixed_response_out<'a, T: Protocol>(
    start: State<T>,
    then: Then<T>,
    events: Seq<Event<'a, T>>,
)
    requires
        start.inv(),
        admissible(start, events),
        start.phase is Sending,
        start.phase->then == then,
        !body_left(start),
        events.len() > 0,
        stays(start, events.drop_last(), is_sending()),
        !(run(start, events).state.phase is Sending),
        !(run(start, events).state.phase is Ended),
    ensures
        run(start, events).sent == start.unsent(),
        (run(start, events).state, last_output(start, events)) == run(start, events).state.sent(
            then,
        ),
{
    let before = run(start, events.drop_last());
    let end = run(start, events);
    lemma_fixed_response_alone(start, then, events.drop_last());
    law_invariant_holds(start, events.drop_last());
    law_invariant_holds(start, events);
    assert(is_sending()(before.state));
    lemma_still_alone(before.state, events.last());
    law_bytes_sent_in_order(start, events);
    assert(end.queued.len() == 0);
    assert(start.unsent() + end.queued =~= start.unsent());
    assert(end.state.unsent().len() == 0);
    assert(end.sent + end.state.unsent() =~= end.sent);
}

/// Once a request is refused, the dispatcher sends the refusal and closes, and does nothing
/// else.
proof fn lemma_refusing<'a, T: Protocol>(
    start: State<T>,
    error: T::ParseError,
    events: Seq<Event<'a, T>>,
)
    requires
        start.inv(),
        admissible(start, events),
        start.phase is Sending,
        start.phase->then == Then::<T>::Refuse(error),
        !body_left(start),
    ensures
        run(start, events).queued.len() == 0,
        ({
            let end = run(start, events);
            ||| {
                &&& end.state.phase is Sending
                &&& end.state.phase->then == Then::<T>::Refuse(error)
                &&& !body_left(end.state)
            }
            ||| end.state.phase == Phase::<T>::Closing(Some(error)) && end.sent == start.unsent()
            ||| end.state.phase is Ended
        }),
    decreases events.len(),
{
    if events.len() > 0 {
        let before = run(start, events.drop_last());
        let end = run(start, events);
        lemma_refusing(start, error, events.drop_last());
        law_invariant_holds(start, events.drop_last());
        law_invariant_holds(start, events);
        law_out_of_turn(before.state, events.last());
        law_bytes_sent_in_order(start, events);
        if before.state.phase is Sending {
            lemma_still_alone(before.state, events.last());
        }
        assert(start.unsent() + end.queued =~= start.unsent());
        if end.state.phase is Closing {
            assert(end.state.unsent().len() == 0);
            assert(end.sent + end.state.unsent() =~= end.sent);
        }
    }
}

/// A request that does not parse is refused: nothing but the refusal is sent, and where the
/// transport does not fail all of it, before the connection is closed and the dispatcher
/// ends with the parse error.
pub proof fn law_malformed_request_refused<'a, T: Protocol>(
    start: State<T>,
    consumed: usize,
    error: T::ParseError,
    events: Seq<Event<'a, T>>,
    result: Result<(), DispatchError<T>>,
)
    requires
        start.inv(),
        start.phase is Decoding,
        start.admits(Event::Decoded { consumed, message: Err(error) }),
        events.len() > 0,
        ({
            let next = start.step(Event::Decoded { consumed, message: Err(error) }).0;
            &&& admissible(next, events)
            &&& last_output(next, events).action == Action::Done(result)
        }),
    ensures
        ({
            let next = start.step(Event::Decoded { consumed, message: Err(error) }).0;
            &&& run(next, events).sent.is_prefix_of(bad_request_bytes())
            &&& {
                ||| result == Err::<(), _>(DispatchError::<T>::Parse(error)) && run(
                    next,
                    events,
                ).sent == bad_request_bytes()
                ||| result matches Err(failure) && failure is Io
            }
        }),
{
    lemma_fixed_responses();
    let event = Event::Decoded { consumed, message: Err(error) };
    let next = start.step(event).0;
    let before = run(next, events.drop_last());
    let end = run(next, events);
    law_invariant_kept(start, event);
    assert(next.unsent() =~= bad_request_bytes());
    lemma_refusing(next, error, events.drop_last());
    lemma_refusing(next, error, events);
    law_invariant_holds(next, events.drop_last());
    law_out_of_turn(before.state, events.last());
    law_bytes_sent_in_order(next, events);
    assert(next.unsent() + end.queued =~= next.unsent());
    if before.state.phase is Sending {
        lemma_still_alone(before.state, events.last());
    } else {
        assert(sent(before.state, events.last()).len() == 0);
        assert(end.sent =~= before.sent);
    }
}

} // verus!
