//! What each thing that a dispatcher is told comes to, and what it never comes to.

use crate::buffer::{ready_to_fill, ReadWriteBuf, HW_BUFFER_SIZE};
use crate::dispatcher::{keeps_read_buffer, Dispatcher};
use crate::laws::{admissible, body_left, law_invariant_holds, run};
use crate::model::{lemma_fixed_responses, Action, Event, Output, Phase, State, Then};
use crate::reader::{received, DispatchReader, DispatchReaderState, ReadStep};
use crate::service::{DispatchServiceHandler, Handled, HandlerStage, HandlerStep};
use crate::types::{
    BodySize, DispatchError, Feed, IoErrorKind, IoFailure, PayloadError, PayloadItem,
    PayloadStatus, PayloadType, Poll, Protocol, Request,
};
use crate::writer::{DispatchWriter, WriteStep, WriterStage};
use vstd::prelude::*;

verus! {

/// An answer differs from what was planned in one thing only: a read may have more room.
pub proof fn law_answer_as_planned<T: Protocol>(answer: Output<T>, plan: Output<T>)
    requires
        answer.realizes(plan),
    ensures
        answer.feed == plan.feed,
        answer.action is Read <==> plan.action is Read,
        !(plan.action is Read) ==> answer.action == plan.action,
        plan.action is Read ==> answer.action->room >= plan.action->room,
{
}

/// So does what a service handler came to.
pub proof fn law_handled_as_planned<T: Protocol>(handled: Handled<T>, plan: Handled<T>)
    requires
        handled.realizes(plan),
    ensures
        handled.handler == plan.handler,
        handled.feed == plan.feed,
        handled.step is Read <==> plan.step is Read,
        !(plan.step is Read) ==> handled.step == plan.step,
        plan.step is Read ==> handled.step->room >= plan.step->room,
{
}

/// And so does what a read led to.
pub proof fn law_read_as_planned<E>(step: ReadStep<E>, plan: ReadStep<E>)
    requires
        step.realizes(plan),
    ensures
        step is Again <==> plan is Again,
        !(plan is Again) ==> step == plan,
        plan is Again ==> step->room >= plan->room,
{
}

/// A read brings the bytes that the transport gave, all of them, and a read that failed or
/// is pending brings none.
pub proof fn law_read_brings_what_was_given<E>(io: Poll<Result<&[u8], E>>)
    ensures
        match io {
            Poll::Ready(Ok(data)) => received(io) == data@,
            _ => received(io).len() == 0,
        },
{
}

/// A reader goes on as long as bytes come and are within bounds. It stops short where it has
/// read something and nothing more is there, and waits where it has read nothing. It fails
/// where the transport fails or the buffer is over its bound, and with nothing else.
pub proof fn law_reader_goes_on_while_bytes_come<E>(
    reader: DispatchReader,
    held: nat,
    max_buffer_size: usize,
    io: Poll<Result<&[u8], E>>,
    error: E,
)
    ensures
        ({
            let step = reader.after(held, max_buffer_size, io);
            let some = io matches Poll::Ready(Ok(data)) && data@.len() > 0;
            &&& step is Again <==> some && held <= max_buffer_size
            &&& step is Pending <==> io is Pending && !reader.read_some
            &&& step == ReadStep::<E>::Ready(Ok(DispatchReaderState::Partial)) <==> io is Pending
                && reader.read_some
            &&& step == ReadStep::Ready(Err(IoFailure::<E>::Found(IoErrorKind::InvalidData)))
                <==> some && held > max_buffer_size
            &&& step == ReadStep::Ready(Err(IoFailure::Reported(error))) <==> io == Poll::Ready(
                Err::<&[u8], E>(error),
            )
            &&& step != ReadStep::Ready(Err(IoFailure::<E>::Found(IoErrorKind::WriteZero)))
        }),
{
}

/// A service handler feeds what was decoded, as it was decoded: a chunk as that chunk, the
/// end as the end, and an error exactly where the decoder failed. It makes no difference to
/// what is fed whether a chunk was fed before in the same poll.
pub proof fn law_handler_feeds_what_was_decoded<T: Protocol>(
    handler: DispatchServiceHandler,
    fed: bool,
    item: Result<Option<PayloadItem<T::Chunk>>, T::ParseError>,
    chunk: T::Chunk,
)
    ensures
        ({
            let feed = handler.after_item::<T>(fed, item).feed;
            &&& feed == Some(Feed::Data(chunk)) <==> item == Ok::<_, T::ParseError>(
                Some(PayloadItem::Chunk(chunk)),
            )
            &&& feed == Some(Feed::<T::Chunk>::Eof) <==> item == Ok::<_, T::ParseError>(
                Some(PayloadItem::<T::Chunk>::Eof),
            )
            &&& feed == Some(Feed::<T::Chunk>::Error(PayloadError::EncodingCorrupted))
                <==> item is Err
            &&& feed != Some(Feed::<T::Chunk>::Error(PayloadError::Incomplete))
            &&& feed is None <==> (item matches Ok(None))
        }),
        handler.after_item::<T>(fed, item).feed == handler.after_item::<T>(!fed, item).feed,
{
}

/// After a chunk the handler decodes on; where nothing could be decoded it reads; and once
/// the body is over, or fails, it polls the service at once if a chunk was fed in this poll,
/// else it waits.
pub proof fn law_handler_after_decoding<T: Protocol>(
    handler: DispatchServiceHandler,
    fed: bool,
    item: Result<Option<PayloadItem<T::Chunk>>, T::ParseError>,
)
    ensures
        ({
            let out = handler.after_item::<T>(fed, item);
            let chunk = item matches Ok(Some(PayloadItem::Chunk(_)));
            let over = item is Err || (item matches Ok(Some(PayloadItem::Eof)));
            &&& out.handler.reader == handler.reader
            &&& out.handler.payload == (handler.payload && !over)
            &&& out.step is DecodePayload <==> chunk
            &&& out.handler.stage == HandlerStage::Decoding { fed: true } <==> chunk
            &&& out.step is Read <==> (item matches Ok(None))
            &&& out.handler.stage == HandlerStage::Reading { fed } <==> (item matches Ok(None))
            &&& out.step is PollService <==> over && fed
            &&& out.handler.stage is Calling <==> over && fed
            &&& out.step is Pending <==> over && !fed
            &&& out.handler.stage is Paused <==> over && !fed
        }),
{
}

/// A service that is pending is left alone, unless its request has a body to be fed: then
/// the payload channel is asked whether it wants more. Nothing else changes.
pub proof fn law_handler_asks_only_for_a_body<T: Protocol>(handler: DispatchServiceHandler)
    ensures
        ({
            let out = handler.after_pending::<T>();
            &&& out.feed is None
            &&& out.handler.payload == handler.payload
            &&& out.handler.reader == handler.reader
            &&& out.step is NeedRead <==> handler.payload
            &&& out.handler.stage is Asking <==> handler.payload
            &&& out.step is Pending <==> !handler.payload
            &&& out.handler.stage is Paused <==> !handler.payload
        }),
{
}

/// The body is decoded only when the payload channel wants more of it, and given up, in
/// silence, only when nobody reads that channel any more.
pub proof fn law_handler_obeys_the_channel<T: Protocol>(
    handler: DispatchServiceHandler,
    status: PayloadStatus,
)
    ensures
        ({
            let out = handler.after_status::<T>(status);
            &&& out.feed is None
            &&& out.handler.reader == handler.reader
            &&& out.handler.payload == (handler.payload && !(status is Dropped))
            &&& out.step is DecodePayload <==> status is Read
            &&& out.handler.stage == HandlerStage::Decoding { fed: false } <==> status is Read
            &&& out.step is Pending <==> !(status is Read)
            &&& out.handler.stage is Paused <==> !(status is Read)
        }),
{
}

/// A read while the service is waited for feeds nothing but the failure of reading. After
/// bytes within bounds it reads on. A pending transport ends the poll only where nothing was
/// ever read; else, and at the transport's end, the body is decoded again.
pub proof fn law_handler_after_reading<T: Protocol>(
    handler: DispatchServiceHandler,
    fed: bool,
    held: nat,
    max_buffer_size: usize,
    io: Poll<Result<&[u8], T::IoError>>,
)
    ensures
        ({
            let out = handler.after_read::<T>(fed, held, max_buffer_size, io);
            let some = io matches Poll::Ready(Ok(data)) && data@.len() > 0;
            let failed = (io matches Poll::Ready(Err(_))) || (some && held > max_buffer_size);
            let waits = io is Pending && !handler.reader.read_some;
            &&& out.feed == (if failed {
                Some(Feed::<T::Chunk>::Error(PayloadError::EncodingCorrupted))
            } else {
                None
            })
            &&& out.handler.payload == (handler.payload && !failed)
            &&& out.handler.reader.read_some == (handler.reader.read_some || (some && !failed))
            &&& out.step is Read <==> some && !failed
            &&& out.handler.stage == HandlerStage::Reading { fed } <==> some && !failed
            &&& out.step is PollService <==> failed && fed
            &&& out.handler.stage is Calling <==> failed && fed
            &&& out.step is Pending <==> waits || (failed && !fed)
            &&& out.handler.stage is Paused <==> waits || (failed && !fed)
            &&& out.step is DecodePayload <==> !some && !failed && !waits
            &&& out.handler.stage == HandlerStage::Decoding { fed } <==> !some && !failed && !waits
        }),
{
}

/// A writer asks the body for more, or writes on, or waits, or is done, as what is buffered
/// and whether the body is over say; what is buffered it leaves as it is.
pub proof fn law_writer_starts<T: Protocol>(payload: bool, write_buf: Seq<u8>)
    ensures
        ({
            let out = DispatchWriter::filling::<T>(payload, write_buf);
            let fill = payload && write_buf.len() < HW_BUFFER_SIZE;
            &&& out.writer.payload == payload
            &&& out.write_buf == write_buf
            &&& out.step is PollBody <==> fill
            &&& out.writer.stage is Filling <==> fill
            &&& out.step is Write <==> !fill && write_buf.len() > 0
            &&& out.writer.stage == WriterStage::Flushing { written: 0 } <==> !fill
                && write_buf.len() > 0
            &&& out.step == WriteStep::<T>::Ready(Ok(())) <==> !payload && write_buf.len() == 0
            &&& out.writer.stage is Paused <==> !payload && write_buf.len() == 0
        }),
{
    assert(write_buf.skip(0) =~= write_buf);
}

/// What a response body gave is encoded as it came, its end too. One that is pending has
/// what is buffered written, one that fails ends it all; neither is taken for its end.
pub proof fn law_writer_encodes_what_the_body_gave<T: Protocol>(
    writer: DispatchWriter,
    write_buf: Seq<u8>,
    item: Poll<Option<Result<T::Chunk, T::ServiceError>>>,
    chunk: T::Chunk,
    error: T::ServiceError,
)
    ensures
        ({
            let out = writer.after_body::<T>(write_buf, item);
            let ended = item == Poll::Ready(None::<Result<T::Chunk, T::ServiceError>>);
            &&& out.writer.payload == writer.payload
            &&& out.write_buf == write_buf
            &&& out.step == WriteStep::<T>::EncodeChunk(Some(chunk)) <==> item == Poll::Ready(
                Some(Ok::<_, T::ServiceError>(chunk)),
            )
            &&& out.step == WriteStep::<T>::EncodeChunk(None) <==> ended
            &&& out.step is EncodeChunk ==> out.writer.stage == WriterStage::Encoding {
                last: ended,
            }
            &&& out.step == WriteStep::<T>::Ready(Err(DispatchError::Service(error))) <==> item
                == Poll::Ready(Some(Err::<T::Chunk, _>(error)))
            &&& out.step == WriteStep::<T>::Ready(Ok(())) <==> item is Pending && write_buf.len()
                == 0 && !writer.payload
            &&& !(out.step is PollBody)
            &&& out.step is Write <==> item is Pending && write_buf.len() > 0
            &&& out.step is Write ==> out.writer.stage == WriterStage::Flushing { written: 0 }
            &&& out.step is Pending <==> item is Pending && write_buf.len() == 0 && writer.payload
            &&& out.step is Pending ==> out.writer.stage is Paused
        }),
{
    assert(write_buf.skip(0) =~= write_buf);
}

/// What was encoded is put behind what is buffered. The body is over with its encoded end,
/// and not before; until then it is asked for more while there is room for that. An encoder
/// that fails ends it all.
pub proof fn law_writer_buffers_what_was_encoded<T: Protocol>(
    writer: DispatchWriter,
    last: bool,
    write_buf: Seq<u8>,
    bytes: &[u8],
    error: T::IoError,
)
    ensures
        ({
            let out = writer.after_encoding::<T>(last, write_buf, Ok(bytes));
            let held = write_buf + bytes@;
            let more = writer.payload && !last;
            let fill = more && held.len() < HW_BUFFER_SIZE;
            &&& out.writer.payload == more
            &&& out.write_buf == held
            &&& out.step is PollBody <==> fill
            &&& out.step is PollBody ==> out.writer.stage is Filling
            &&& out.step is Write <==> !fill && held.len() > 0
            &&& out.step is Write ==> out.writer.stage == WriterStage::Flushing { written: 0 }
            &&& out.step == WriteStep::<T>::Ready(Ok(())) <==> !more && held.len() == 0
            &&& !(out.step is Pending) && !(out.step is EncodeChunk)
        }),
        ({
            let out = writer.after_encoding::<T>(last, write_buf, Err(error));
            &&& out.step == WriteStep::<T>::Ready(
                Err(DispatchError::Io(IoFailure::Reported(error))),
            )
            &&& out.write_buf == write_buf
            &&& out.writer == writer
        }),
{
    let held = write_buf + bytes@;
    assert(held.skip(0) =~= held);
}

/// A writer writes on until all that is buffered is out. What the transport did not take
/// stays, where it is pending or part of it is taken; a body that is left keeps the writer
/// from being done. A transport that fails, or takes nothing, ends it all.
pub proof fn law_writer_writes_all<T: Protocol>(
    writer: DispatchWriter,
    written: usize,
    write_buf: Seq<u8>,
    count: usize,
    error: T::IoError,
)
    requires
        written < write_buf.len(),
        written + count <= write_buf.len() <= usize::MAX,
    ensures
        ({
            let out = writer.after_write::<T>(written, write_buf, Poll::Ready(Ok(count)));
            let all = written + count == write_buf.len();
            &&& out.writer.payload == writer.payload
            &&& out.step is Write <==> count > 0 && !all
            &&& out.step is Write ==> out.write_buf == write_buf && out.writer.stage
                == (WriterStage::Flushing { written: (written + count) as usize })
            &&& out.step is Pending <==> count > 0 && all && writer.payload
            &&& out.step == WriteStep::<T>::Ready(Ok(())) <==> count > 0 && all && !writer.payload
            &&& count > 0 && all ==> out.write_buf.len() == 0 && out.writer.stage is Paused
            &&& out.step == WriteStep::<T>::Ready(
                Err(DispatchError::Io(IoFailure::Found(IoErrorKind::WriteZero))),
            ) <==> count == 0
        }),
        ({
            let out = writer.after_write::<T>(written, write_buf, Poll::Pending);
            &&& out.step is Pending
            &&& out.writer == (DispatchWriter { payload: writer.payload, stage: WriterStage::Paused })
            &&& out.write_buf == write_buf.skip(written as int)
        }),
        writer.after_write::<T>(written, write_buf, Poll::Ready(Err(error))).step
            == WriteStep::<T>::Ready(Err(DispatchError::Io(IoFailure::Reported(error)))),
{
}

/// Whether a dispatcher in `phase` waits for `event`.
pub open spec fn awaits<T: Protocol>(phase: Phase<T>, event: Event<'_, T>) -> bool {
    match phase {
        Phase::Reading(_) => event is Wake || event is Read,
        Phase::Decoding(_) => event is Decoded,
        Phase::Upgrading => event is Wake || event is Upgraded,
        Phase::Expecting { .. } => event is Wake || event is Expected,
        Phase::Serving { handler, .. } => match handler.stage {
            HandlerStage::Paused => event is Wake,
            HandlerStage::Calling => event is Served,
            HandlerStage::Asking => event is Status,
            HandlerStage::Decoding { .. } => event is PayloadDecoded,
            HandlerStage::Reading { .. } => event is Read,
        },
        Phase::Rendering { .. } => event is Rendered,
        Phase::Responding { .. } => event is HeadEncoded,
        Phase::Sending { writer, .. } => match writer.stage {
            WriterStage::Paused => event is Wake,
            WriterStage::Filling => event is Body,
            WriterStage::Encoding { .. } => event is ChunkEncoded,
            WriterStage::Flushing { .. } => event is Written,
        },
        Phase::Closing(_) => event is Wake || event is ShutDown,
        Phase::Ended => false,
    }
}

/// A dispatcher takes what it waits for, and nothing else: exactly the rest is out of turn.
pub proof fn law_takes_what_it_awaits<T: Protocol>(state: State<T>, event: Event<'_, T>)
    ensures
        state.step(event).1.action is OutOfTurn <==> !awaits(state.phase, event),
{
}

/// A dispatcher can be told anything of which its buffers can take up the bytes, which
/// decodes no more than there is to decode and writes no more than there is to write.
pub proof fn law_can_be_told_what_fits<T: Protocol>(state: State<T>, event: Event<'_, T>)
    requires
        state.inv(),
    ensures
        state.admits(event) <==> match event {
            Event::Read(Poll::Ready(Ok(data))) => state.read_buf.len() + data@.len() + 8192
                <= isize::MAX / 4,
            Event::Decoded { consumed, .. } => consumed <= state.read_buf.len(),
            Event::PayloadDecoded { consumed, .. } => consumed <= state.read_buf.len(),
            Event::HeadEncoded(Ok((bytes, _))) => bytes@.len() <= isize::MAX / 4,
            Event::ChunkEncoded(Ok(bytes)) => state.write_buf.len() + bytes@.len() <= isize::MAX
                / 4,
            Event::Written(Poll::Ready(Ok(count))) => count <= state.unsent().len(),
            _ => true,
        },
{
}

/// The read buffer gains what a read brought and loses what was decoded. Nothing else
/// touches it.
pub proof fn law_read_buffer_moves<T: Protocol>(state: State<T>, event: Event<'_, T>)
    ensures
        state.step(event).0.read_buf == (match event {
            _ if !awaits(state.phase, event) => state.read_buf,
            Event::Read(Poll::Ready(Ok(data))) => state.read_buf + data@,
            Event::Decoded { consumed, .. } => state.read_buf.skip(consumed as int),
            Event::PayloadDecoded { consumed, .. } => state.read_buf.skip(consumed as int),
            _ => state.read_buf,
        }),
{
    assert(state.read_buf + Seq::<u8>::empty() =~= state.read_buf);
}

/// Nothing is taken from or added to the write buffer by what ends the dispatcher.
pub proof fn law_end_leaves_the_write_buffer<T: Protocol>(state: State<T>, event: Event<'_, T>)
    requires
        state.step(event).0.phase is Ended,
    ensures
        state.step(event).0.write_buf == state.write_buf,
{
}

/// What came with the connection stays with the dispatcher until a request is decoded, and
/// then it is gone.
pub proof fn law_connect_data_kept<T: Protocol>(state: State<T>, event: Event<'_, T>)
    ensures
        state.step(event).0.on_connect_data == (if state.phase is Decoding && (event matches
            Event::Decoded { message: Ok(Some(_)), .. }) {
            None
        } else {
            state.on_connect_data
        }),
{
}

/// A dispatcher ends where, and only where, it is done or fails, and tells which: an upgrade
/// handler or a shut down that came to its end; a request that did not parse, once its
/// connection is closed; a handler or a response body that failed; an encoder or a transport
/// that failed while a response was sent, or a transport that took nothing.
pub proof fn law_ends_for_a_reason<T: Protocol>(
    state: State<T>,
    event: Event<'_, T>,
    parse: T::ParseError,
    service: T::ServiceError,
    io: T::IoError,
)
    ensures
        ({
            let action = state.step(event).1.action;
            let upgraded = state.phase is Upgrading && event is Upgraded;
            let shut = state.phase is Closing && (event matches Event::ShutDown(result)
                && result is Ready);
            let writer = state.phase->Sending_writer;
            let sending = state.phase is Sending;
            &&& action == Action::<T>::Done(Ok(())) <==> {
                ||| upgraded && (event matches Event::Upgraded(Poll::Ready(Ok(_))))
                ||| shut && state.phase == Phase::<T>::Closing(None)
            }
            &&& action == Action::<T>::Done(Err(DispatchError::Upgrade)) <==> upgraded && (
            event matches Event::Upgraded(Poll::Ready(Err(_))))
            &&& action == Action::<T>::Done(Err(DispatchError::Parse(parse))) <==> shut
                && state.phase == Phase::<T>::Closing(Some(parse))
            &&& action == Action::<T>::Done(Err(DispatchError::Service(service))) <==> {
                ||| state.phase is Expecting && event == Event::<T>::Expected(
                    Poll::Ready(Err(service)),
                )
                ||| sending && writer.stage is Filling && event == Event::<T>::Body(
                    Poll::Ready(Some(Err(service))),
                )
            }
            &&& action == Action::<T>::Done(Err(DispatchError::Io(IoFailure::Reported(io)))) <==> {
                ||| state.phase is Responding && event == Event::<T>::HeadEncoded(Err(io))
                ||| sending && writer.stage is Encoding && event == Event::<T>::ChunkEncoded(
                    Err(io),
                )
                ||| sending && writer.stage is Flushing && event == Event::<T>::Written(
                    Poll::Ready(Err(io)),
                )
            }
            &&& action == Action::<T>::Done(
                Err(DispatchError::Io(IoFailure::Found(IoErrorKind::WriteZero))),
            ) <==> sending && writer.stage is Flushing && event == Event::<T>::Written(
                Poll::Ready(Ok(0)),
            )
            &&& action != Action::<T>::Done(
                Err(DispatchError::Io(IoFailure::Found(IoErrorKind::InvalidData))),
            )
            &&& state.step(event).0.phase is Ended <==> action is Done || state.phase is Ended
        }),
{
}

/// What reaches a payload channel, and when: a chunk or the end of the body as soon as that
/// is decoded, whatever else was decoded in the same poll; an error if and only if the body
/// could not be decoded or read, or, where there is a body, the response could not be
/// encoded.
pub proof fn law_channel_is_fed<T: Protocol>(
    state: State<T>,
    event: Event<'_, T>,
    chunk: T::Chunk,
)
    ensures
        ({
            let feed = state.step(event).1.feed;
            let stage = state.phase->handler.stage;
            let decoded = state.phase is Serving && stage is Decoding && event is PayloadDecoded;
            let read = state.phase is Serving && stage is Reading && event is Read;
            &&& feed == Some(Feed::Data(chunk)) <==> decoded && (event matches
                Event::PayloadDecoded { item, .. } && item == Ok::<_, T::ParseError>(
                Some(PayloadItem::Chunk(chunk)),
            ))
            &&& feed == Some(Feed::<T::Chunk>::Eof) <==> decoded && (event matches
                Event::PayloadDecoded { item: Ok(Some(PayloadItem::Eof)), .. })
            &&& feed == Some(Feed::<T::Chunk>::Error(PayloadError::EncodingCorrupted)) <==> {
                ||| decoded && (event matches Event::PayloadDecoded { item: Err(_), .. })
                ||| read && (event matches Event::Read(Poll::Ready(Err(_))))
                ||| read && (event matches Event::Read(Poll::Ready(Ok(data))) && data@.len() > 0
                    && state.read_buf.len() + data@.len() > state.max_buffer_size)
            }
            &&& feed == Some(Feed::<T::Chunk>::Error(PayloadError::Incomplete)) <==> {
                &&& state.phase is Responding
                &&& state.phase->Responding_has_payload
                &&& event matches Event::HeadEncoded(Err(_))
            }
        }),
{
}

/// A request reaches its handler as it was decoded, with the address of the peer, what came
/// with the connection if that was still there, and, where it has a body of whatever kind
/// and is not for the upgrade handler, a payload channel. The phase entered with it knows of
/// the same body.
pub proof fn law_request_reaches_its_handler<T: Protocol>(
    state: State<T>,
    consumed: usize,
    request: Request<T>,
    payload_type: PayloadType,
)
    requires
        state.phase is Decoding,
    ensures
        ({
            let event = Event::Decoded { consumed, message: Ok(Some((request, payload_type))) };
            let (next, output) = state.step(event);
            let has_body = payload_type is Payload || payload_type is Stream;
            let handed = match output.action {
                Action::CallUpgrade(handed) => handed,
                Action::CallExpect(handed) => handed,
                Action::CallService(handed) => handed,
                _ => arbitrary(),
            };
            let upgrade = payload_type is Stream && state.upgradeable;
            &&& output.action is CallUpgrade <==> upgrade
            &&& output.action is CallExpect <==> !upgrade && request.expect
            &&& output.action is CallService <==> !upgrade && !request.expect
            &&& handed.message == request.message
            &&& handed.expect == request.expect
            &&& handed.peer_addr == state.peer_addr
            &&& state.on_connect_data is Some ==> handed.on_connect_data == state.on_connect_data
            &&& state.on_connect_data is None ==> handed.on_connect_data == request.on_connect_data
            &&& !upgrade && has_body ==> handed.has_payload
            &&& upgrade || !has_body ==> handed.has_payload == request.has_payload
            &&& upgrade ==> next.phase is Upgrading
            &&& output.action is CallExpect ==> next.phase == (Phase::<T>::Expecting {
                has_payload: has_body,
            })
            &&& output.action is CallService ==> {
                &&& next.phase is Serving
                &&& next.phase->Serving_has_payload == has_body
                &&& next.phase->handler.payload == has_body
                &&& next.phase->handler.stage is Calling
                &&& !next.phase->handler.reader.read_some
            }
            &&& next.write_buf == state.write_buf
            &&& output.feed is None
        }),
{
}

/// Only a request that was decoded, or the one kept until its interim response is out, is
/// handed to a handler.
pub proof fn law_handlers_called_for_requests<T: Protocol>(state: State<T>, event: Event<'_, T>)
    ensures
        ({
            let action = state.step(event).1.action;
            let decoded = state.phase is Decoding && (event matches Event::Decoded {
                message: Ok(Some(_)),
                ..
            });
            &&& action is CallUpgrade || action is CallExpect ==> decoded
            &&& action matches Action::CallService(request) ==> {
                ||| decoded
                ||| state.phase is Sending && state.phase->then is Serve
                    && state.phase->then->request == request
            }
        }),
{
    lemma_fixed_responses();
}

/// Reading a request goes on as long as bytes come within bounds. Then what came is decoded:
/// where nothing more is there for now as part of it all, at the end of the transport as all
/// of it. A transport that fails, or gives too much, has the connection closed without a
/// parse error. Where nothing was read the dispatcher waits and stays as it is.
pub proof fn law_request_is_read<T: Protocol>(state: State<T>, io: Poll<Result<&[u8], T::IoError>>)
    requires
        state.phase is Reading,
    ensures
        ({
            let (next, output) = state.step(Event::Read(io));
            let read_some = state.phase->Reading_0.read_some;
            &&& output.feed is None
            &&& next.write_buf == state.write_buf
            &&& match io {
                Poll::Pending => if read_some {
                    &&& output.action is Decode
                    &&& next.phase == Phase::<T>::Decoding(DispatchReaderState::Partial)
                } else {
                    output.action is Wait && next.phase == state.phase
                },
                Poll::Ready(Err(_)) => output.action is ShutDown && next.phase
                    == Phase::<T>::Closing(None),
                Poll::Ready(Ok(data)) => if data@.len() == 0 {
                    &&& output.action is Decode
                    &&& next.phase == Phase::<T>::Decoding(DispatchReaderState::All)
                } else if state.read_buf.len() + data@.len() > state.max_buffer_size {
                    output.action is ShutDown && next.phase == Phase::<T>::Closing(None)
                } else {
                    output.action is Read && next.phase is Reading
                        && next.phase->Reading_0.read_some
                },
            }
        }),
{
}

/// Where no request could be decoded, more is read if more may come, from scratch, and else
/// the connection is closed without a parse error.
pub proof fn law_incomplete_request_is_read_on<T: Protocol>(state: State<T>, consumed: usize)
    requires
        state.phase is Decoding,
    ensures
        ({
            let (next, output) = state.step(Event::Decoded { consumed, message: Ok(None) });
            let partial = state.phase == Phase::<T>::Decoding(DispatchReaderState::Partial);
            &&& output.action is Read <==> partial
            &&& partial ==> next.phase is Reading && !next.phase->Reading_0.read_some
            &&& output.action is ShutDown <==> !partial
            &&& !partial ==> next.phase == Phase::<T>::Closing(None)
            &&& next.write_buf == state.write_buf
            &&& output.feed is None
        }),
{
}

/// A request that does not parse has the refusal, and nothing else, written, and nothing but
/// the closing of the connection on account of its error comes after that.
pub proof fn law_refusal_is_sent<T: Protocol>(
    state: State<T>,
    consumed: usize,
    error: T::ParseError,
)
    requires
        state.inv(),
        state.phase is Decoding,
    ensures
        ({
            let (next, output) = state.step(Event::Decoded { consumed, message: Err(error) });
            &&& output.action is Write
            &&& output.feed is None
            &&& next.phase is Sending
            &&& next.phase->then == Then::<T>::Refuse(error)
            &&& !next.phase->Sending_writer.payload
            &&& next.unsent() == vstd::utf8::encode_utf8(
                "HTTP/1.1 400 Bad Request\r\ncontent-length: 0\r\nconnection: close\r\n\r\n"@,
            )
        }),
{
    lemma_fixed_responses();
    let next = state.step(Event::Decoded { consumed, message: Err(error) }).0;
    assert(next.unsent() =~= next.write_buf);
    assert(state.write_buf =~= Seq::<u8>::empty());
}

/// The expect handler is waited for until it is ready, and for nothing else. Pending, it
/// leaves the dispatcher as it is, waiting; the next poll polls it again. The request that it
/// gives back is served behind the interim response, with the body that it was decoded with;
/// its error ends the dispatcher.
pub proof fn law_expect_handler_awaited<T: Protocol>(state: State<T>, event: Event<'_, T>)
    requires
        state.inv(),
        state.phase is Expecting,
    ensures
        state.step(event).0.phase is Expecting <==> !(event matches Event::Expected(result)
            && result is Ready),
        state.step(event).0.phase is Expecting ==> state.step(event).0 == state,
        state.step(Event::Expected(Poll::Pending)).1.action is Wait,
        state.step(Event::Expected(Poll::Pending)).0.step(Event::Wake).1.action is PollExpect,
        state.step(Event::Expected(Poll::Pending)).0.step(Event::Wake).0 == state,
        state.step(event).1.feed is None,
        event matches Event::Expected(Poll::Ready(Ok(request))) ==> {
            let (next, output) = state.step(event);
            &&& output.action is Write
            &&& next.phase is Sending
            &&& next.phase->then == (Then::<T>::Serve {
                request,
                has_payload: state.phase->Expecting_has_payload,
            })
            &&& !next.phase->Sending_writer.payload
            &&& next.unsent() == vstd::utf8::encode_utf8("HTTP/1.1 100 Continue\r\n\r\n"@)
        },
        event matches Event::Expected(Poll::Ready(Err(error))) ==> state.step(event).1.action
            == Action::<T>::Done(Err(DispatchError::Service(error))),
{
    lemma_fixed_responses();
    let next = state.step(event).0;
    assert(state.write_buf =~= Seq::<u8>::empty());
    if next.phase is Sending {
        assert(next.unsent() =~= next.write_buf);
    }
}

/// The upgrade handler is waited for until it is ready, and for nothing else. Pending, it
/// leaves the dispatcher as it is, waiting; the next poll polls it again.
pub proof fn law_upgrade_handler_awaited<T: Protocol>(state: State<T>, event: Event<'_, T>)
    requires
        state.phase is Upgrading,
    ensures
        state.step(event).0.phase is Upgrading <==> !(event matches Event::Upgraded(result)
            && result is Ready),
        state.step(event).0.phase is Upgrading ==> state.step(event).0 == state,
        state.step(Event::Upgraded(Poll::Pending)).1.action is Wait,
        state.step(Event::Upgraded(Poll::Pending)).0.step(Event::Wake).1.action is PollUpgrade,
        state.step(event).1.feed is None,
{
}

/// Shutting down is waited for until the transport is done with it, well or not, and for
/// nothing else. Pending, it leaves the dispatcher as it is, waiting; the next poll asks for
/// it again.
pub proof fn law_shut_down_awaited<T: Protocol>(state: State<T>, event: Event<'_, T>)
    requires
        state.phase is Closing,
    ensures
        state.step(event).0.phase is Closing <==> !(event matches Event::ShutDown(result)
            && result is Ready),
        state.step(event).0.phase is Closing ==> state.step(event).0 == state,
        state.step(Event::ShutDown(Poll::Pending)).1.action is Wait,
        state.step(Event::ShutDown(Poll::Pending)).0.step(Event::Wake).1.action is ShutDown,
        state.step(event).1.feed is None,
{
}

/// A dispatcher that is polled while it reads a request asks for a read, and stays as it is.
pub proof fn law_reading_resumed<T: Protocol>(state: State<T>)
    requires
        state.phase is Reading,
    ensures
        state.step(Event::Wake).0 == state,
        state.step(Event::Wake).1.action is Read,
        state.step(Event::Wake).1.feed is None,
{
}

/// The service is waited for until it is ready, and for nothing else, whatever becomes of
/// the request body meanwhile. What it comes to is answered: its response is encoded, or its
/// error turned into one. Pending, without a body to be fed, it has the dispatcher wait, and
/// the next poll polls it again.
pub proof fn law_service_awaited<T: Protocol>(state: State<T>, event: Event<'_, T>)
    requires
        state.phase is Serving,
    ensures
        ({
            let (next, output) = state.step(event);
            let handler = state.phase->handler;
            let has_payload = state.phase->Serving_has_payload;
            &&& next.phase is Serving <==> !(handler.stage is Calling && (event matches
                Event::Served(result) && result is Ready))
            &&& next.phase is Serving ==> next.phase->Serving_has_payload == has_payload
            &&& next.write_buf == state.write_buf
            &&& handler.stage is Calling ==> {
                match event {
                    Event::Served(Poll::Ready(Ok((response, size)))) => {
                        &&& output.action == Action::<T>::EncodeHead(response, size)
                        &&& next.phase == (Phase::<T>::Responding { has_payload, size })
                    },
                    Event::Served(Poll::Ready(Err(error))) => {
                        &&& output.action == Action::<T>::RenderError(error)
                        &&& next.phase == (Phase::<T>::Rendering { has_payload })
                    },
                    Event::Served(Poll::Pending) => {
                        &&& output.action is NeedRead <==> handler.payload
                        &&& output.action is Wait <==> !handler.payload
                        &&& !handler.payload ==> next.step(Event::Wake).1.action is PollService
                        &&& !handler.payload ==> next.step(Event::Wake).0 == state
                    },
                    _ => next == state,
                }
            }
        }),
{
}

/// A poll of a dispatcher that waits for its service polls the service, once the poll before
/// is over, and leaves the request body as it is.
pub proof fn law_service_polled_again<T: Protocol>(state: State<T>)
    requires
        state.phase is Serving,
        state.phase->handler.stage is Paused,
    ensures
        ({
            let (next, output) = state.step(Event::Wake);
            &&& output.action is PollService
            &&& output.feed is None
            &&& next.phase is Serving
            &&& next.phase->handler.stage is Calling
            &&& next.phase->handler.payload == state.phase->handler.payload
            &&& next.phase->handler.reader == state.phase->handler.reader
        }),
{
}

/// While the service is waited for, the request body moves on: the channel is asked, the
/// body decoded, more read, as what came last says. It is given up exactly when it ended,
/// failed or is no longer wanted.
pub proof fn law_body_moves_on<T: Protocol>(state: State<T>, event: Event<'_, T>)
    requires
        state.phase is Serving,
        awaits(state.phase, event),
        state.step(event).0.phase is Serving,
    ensures
        ({
            let (next, output) = state.step(event);
            let handler = state.phase->handler;
            let after = next.phase->handler;
            let some = event matches Event::Read(Poll::Ready(Ok(data))) && data@.len() > 0;
            let failed = (event matches Event::Read(Poll::Ready(Err(_)))) || (some
                && next.read_buf.len() > state.max_buffer_size);
            let over = failed || (event matches Event::PayloadDecoded {
                item: Ok(Some(PayloadItem::Eof)),
                ..
            }) || (event matches Event::PayloadDecoded { item: Err(_), .. });
            let fed = match handler.stage {
                HandlerStage::Decoding { fed } => fed,
                HandlerStage::Reading { fed } => fed,
                _ => false,
            };
            &&& after.payload == (handler.payload && !over && event
                != Event::<T>::Status(PayloadStatus::Dropped))
            &&& after.reader.read_some == (handler.reader.read_some || (some && !failed))
            &&& over ==> {
                &&& output.action is PollService <==> fed
                &&& after.stage is Calling <==> fed
                &&& output.action is Wait <==> !fed
                &&& after.stage is Paused <==> !fed
            }
            &&& event matches Event::Status(status) ==> {
                &&& output.action is DecodePayload <==> status is Read
                &&& output.action is Wait <==> !(status is Read)
                &&& status is Read ==> after.stage == HandlerStage::Decoding { fed: false }
            }
            &&& event is PayloadDecoded && !over ==> {
                let chunk = event->item->Ok_0 is Some;
                &&& output.action is DecodePayload <==> chunk
                &&& output.action is Read <==> !chunk
                &&& chunk ==> after.stage == HandlerStage::Decoding { fed: true }
                &&& !chunk ==> after.stage == HandlerStage::Reading { fed }
            }
            &&& event is Read && !over ==> {
                let waits = event == Event::<T>::Read(Poll::Pending) && !handler.reader.read_some;
                &&& output.action is Read <==> some
                &&& output.action is Wait <==> waits
                &&& output.action is DecodePayload <==> !some && !waits
                &&& some ==> after.stage == HandlerStage::Reading { fed }
                &&& !some && !waits ==> after.stage == HandlerStage::Decoding { fed }
            }
        }),
{
    assert(state.read_buf + Seq::<u8>::empty() =~= state.read_buf);
}

/// The response that stands for an error is encoded like any other.
pub proof fn law_rendered_response_encoded<T: Protocol>(
    state: State<T>,
    response: T::Response,
    size: BodySize,
)
    requires
        state.phase is Rendering,
    ensures
        ({
            let (next, output) = state.step(Event::Rendered(response, size));
            &&& output.action == Action::<T>::EncodeHead(response, size)
            &&& output.feed is None
            &&& next.phase == (Phase::<T>::Responding {
                has_payload: state.phase->Rendering_has_payload,
                size,
            })
            &&& next.write_buf == state.write_buf
        }),
{
}

/// Behind the head of a response comes its body: of one with a size or a stream, polled
/// before anything follows; of one that is empty or has none, nothing. Then the next request
/// is read if the connection outlives the response, else the connection is closed.
pub proof fn law_body_follows_its_head<T: Protocol>(
    state: State<T>,
    bytes: &[u8],
    keep_alive: bool,
)
    requires
        state.inv(),
        state.phase is Responding,
    ensures
        ({
            let (next, output) = state.step(Event::HeadEncoded(Ok((bytes, keep_alive))));
            let size = state.phase->Responding_size;
            let bodyless = size is Absent || size is Empty;
            let fill = !bodyless && bytes@.len() < HW_BUFFER_SIZE;
            &&& output.feed is None
            &&& next.unsent() == bytes@
            &&& body_left(next) <==> !bodyless
            &&& output.action is PollBody <==> fill
            &&& output.action is Write <==> !fill && bytes@.len() > 0
            &&& next.phase is Sending <==> !bodyless || bytes@.len() > 0
            &&& next.phase is Sending ==> next.phase->then == (if keep_alive {
                Then::<T>::Read
            } else {
                Then::<T>::Close
            })
            &&& !(next.phase is Sending) && keep_alive ==> next.phase is Reading
                && output.action is Read
            &&& !(next.phase is Sending) && !keep_alive ==> next.phase == Phase::<T>::Closing(None)
                && output.action is ShutDown
        }),
{
    let next = state.step(Event::HeadEncoded(Ok((bytes, keep_alive)))).0;
    assert(state.write_buf + bytes@ =~= bytes@);
    assert(bytes@.skip(0) =~= bytes@);
    assert(next.unsent() =~= bytes@);
}

/// While a response is sent, what follows it stays the same, and its body is left until the
/// encoded end of that is buffered. The body is asked for more while that is wanted and less
/// than `HW_BUFFER_SIZE` is buffered, what it gives is encoded, and what is buffered is
/// written until it is out. The dispatcher waits only for the body or the transport, or where
/// all is out and the body has more.
pub proof fn law_response_is_sent<T: Protocol>(
    state: State<T>,
    event: Event<'_, T>,
    chunk: T::Chunk,
)
    requires
        state.inv(),
        state.admits(event),
        state.phase is Sending,
        awaits(state.phase, event),
        !(state.step(event).1.action is Done),
    ensures
        ({
            let (next, output) = state.step(event);
            let writer = state.phase->Sending_writer;
            let ended = writer.stage == (WriterStage::Encoding { last: true });
            let more = writer.payload && !ended;
            let held = match event {
                Event::ChunkEncoded(Ok(bytes)) => (state.unsent().len() + bytes@.len()) as int,
                Event::Written(Poll::Ready(Ok(count))) => state.unsent().len() - count,
                _ => state.unsent().len() as int,
            };
            let fill = (event is Wake || event is ChunkEncoded) && more && held < HW_BUFFER_SIZE;
            let encode = event matches Event::Body(item) && item is Ready;
            let blocked = event == Event::<T>::Written(Poll::Pending);
            &&& output.feed is None
            &&& next.unsent().len() == held
            &&& body_left(next) == more
            &&& next.phase is Sending ==> next.phase->then == state.phase->then
            &&& output.action is PollBody <==> fill
            &&& output.action == Action::<T>::EncodeChunk(Some(chunk)) <==> event
                == Event::<T>::Body(Poll::Ready(Some(Ok(chunk))))
            &&& output.action == Action::<T>::EncodeChunk(None) <==> event == Event::<T>::Body(
                Poll::Ready(None),
            )
            &&& encode ==> next.phase->Sending_writer.stage == (WriterStage::Encoding {
                last: event == Event::<T>::Body(Poll::Ready(None)),
            })
            &&& output.action is Write <==> !fill && !encode && !blocked && held > 0
            &&& output.action is Wait <==> blocked || (!fill && !encode && held == 0 && more)
            &&& next.phase is Sending <==> more || held > 0
        }),
{
    let (next, output) = state.step(event);
    let writer = state.phase->Sending_writer;
    assert(state.write_buf + Seq::<u8>::empty() =~= state.write_buf);
    if let Event::Written(Poll::Ready(Ok(count))) = event {
        let written = writer.stage->Flushing_written;
        assert(state.unsent().len() == state.write_buf.len() - written);
    }
}

/// Once all of a response is out, what was to follow it follows: the service is called with
/// the request that was kept and the body it has, a request is read from scratch, or the
/// connection is closed, with the parse error if there was one.
pub proof fn law_what_follows_follows<T: Protocol>(state: State<T>, event: Event<'_, T>)
    requires
        state.inv(),
        state.admits(event),
        state.phase is Sending,
        !(state.step(event).0.phase is Sending),
        !(state.step(event).1.action is Done),
    ensures
        ({
            let (next, output) = state.step(event);
            &&& output.feed is None
            &&& match state.phase->then {
                Then::Serve { request, has_payload } => {
                    &&& output.action == Action::<T>::CallService(request)
                    &&& next.phase == (Phase::<T>::Serving {
                        handler: DispatchServiceHandler {
                            payload: has_payload,
                            reader: DispatchReader { read_some: false },
                            stage: HandlerStage::Calling,
                        },
                        has_payload,
                    })
                },
                Then::Read => {
                    &&& output.action is Read
                    &&& next.phase is Reading
                    &&& !next.phase->Reading_0.read_some
                },
                Then::Close => output.action is ShutDown && next.phase == Phase::<T>::Closing(None),
                Then::Refuse(error) => output.action is ShutDown && next.phase == Phase::<
                    T,
                >::Closing(Some(error)),
            }
        }),
{
}

/// Whether one of `events` says that the response body is over.
pub open spec fn body_ended<'a, T: Protocol>(events: Seq<Event<'a, T>>) -> bool {
    exists|i: int|
        0 <= i < events.len() && #[trigger] events[i] == Event::<'a, T>::Body(Poll::Ready(None))
}

/// A response with a body keeps the dispatcher sending until the body said that it is over:
/// nothing follows before that, however much of it is sent meanwhile.
pub proof fn law_body_sent_to_its_end<'a, T: Protocol>(
    start: State<T>,
    events: Seq<Event<'a, T>>,
)
    requires
        start.inv(),
        admissible(start, events),
        start.phase is Sending,
        start.phase->Sending_writer.payload,
        start.phase->Sending_writer.stage != (WriterStage::Encoding { last: true }),
        !body_ended(events),
    ensures
        ({
            let end = run(start, events).state;
            ||| end.phase is Ended
            ||| {
                &&& end.phase is Sending
                &&& end.phase->then == start.phase->then
                &&& end.phase->Sending_writer.payload
                &&& end.phase->Sending_writer.stage != (WriterStage::Encoding { last: true })
            }
        }),
    decreases events.len(),
{
    if events.len() > 0 {
        let before = events.drop_last();
        assert(!body_ended(before)) by {
            if body_ended(before) {
                let i = choose|i: int|
                    0 <= i < before.len() && #[trigger] before[i] == Event::<'a, T>::Body(
                        Poll::Ready(None),
                    );
                assert(events[i] == before[i]);
            }
        }
        law_body_sent_to_its_end(start, before);
        law_invariant_holds(start, before);
        let last = events.last();
        assert(events[events.len() - 1] == last);
        let state = run(start, before).state;
        if state.phase is Sending && awaits(state.phase, last) && !(state.step(
            last,
        ).1.action is Done) {
            law_response_is_sent(state, last, arbitrary());
        }
    }
}

/// Whether one of `events` says that the service is ready.
pub open spec fn service_ready<'a, T: Protocol>(events: Seq<Event<'a, T>>) -> bool {
    exists|i: int|
        0 <= i < events.len() && (#[trigger] events[i] matches Event::Served(result)
            && result is Ready)
}

/// Once called, the service is waited for until it said that it is ready, however often it
/// is pending and whatever comes of the request body.
pub proof fn law_service_waited_for<'a, T: Protocol>(start: State<T>, events: Seq<Event<'a, T>>)
    requires
        start.phase is Serving,
        !service_ready(events),
    ensures
        run(start, events).state.phase is Serving,
        run(start, events).sent.len() == 0,
    decreases events.len(),
{
    if events.len() > 0 {
        let before = events.drop_last();
        assert(!service_ready(before)) by {
            if service_ready(before) {
                let i = choose|i: int|
                    0 <= i < before.len() && (#[trigger] before[i] matches Event::Served(result)
                        && result is Ready);
                assert(events[i] == before[i]);
            }
        }
        law_service_waited_for(start, before);
        assert(events[events.len() - 1] == events.last());
        law_service_awaited(run(start, before).state, events.last());
    }
}

/// What a dispatcher shows of itself is what it holds, whenever it is asked.
pub proof fn law_shows_what_it_holds<T: Protocol>(
    dispatcher: Dispatcher<T>,
    read: &[u8],
    unsent: &[u8],
    phase: &Phase<T>,
    upgradeable: bool,
)
    ensures
        call_ensures(Dispatcher::<T>::read_buf, (&dispatcher,), read) ==> read@
            == dispatcher@.read_buf,
        call_ensures(Dispatcher::<T>::phase, (&dispatcher,), phase) ==> *phase
            == dispatcher@.phase,
        call_ensures(Dispatcher::<T>::is_upgradeable, (&dispatcher,), upgradeable) ==> upgradeable
            == dispatcher@.upgradeable,
        call_ensures(Dispatcher::<T>::unsent, (&dispatcher,), unsent) ==> unsent@ == (
        if let Phase::Sending { writer, .. } = dispatcher@.phase {
            if let WriterStage::Flushing { written } = writer.stage {
                dispatcher@.write_buf.skip(written as int)
            } else {
                dispatcher@.write_buf
            }
        } else {
            dispatcher@.write_buf
        }),
{
}

/// An error that the dispatcher finds says which of the two it is.
pub proof fn law_found_errors_told_apart(kind: IoErrorKind, text: &'static str)
    requires
        call_ensures(IoErrorKind::message, (kind,), text),
    ensures
        kind is InvalidData <==> text@ == "buffer over flow"@,
        kind is WriteZero <==> text@ == "failed to write frame to transport"@,
{
    reveal_strlit("buffer over flow");
    reveal_strlit("failed to write frame to transport");
    assert("buffer over flow"@.len() != "failed to write frame to transport"@.len());
}

/// A dispatcher that names the room for a read has it, and one that asks for more of a
/// response body has room for that. Where nothing is read, and nothing was read or decoded,
/// its read buffer is the very same.
pub proof fn law_buffers_between_turns<T: Protocol>(
    before: Dispatcher<T>,
    event: Event<'_, T>,
    after: Dispatcher<T>,
    action: Action<T>,
)
    requires
        after.has_room_for(action),
        keeps_read_buffer(event) ==> after.grew_for(before, action),
    ensures
        action matches Action::Read { room } ==> after.read_buffer().roomy(room),
        action is PollBody ==> ready_to_fill(after.write_buffer()),
        ({
            &&& !(event is Decoded)
            &&& !(event is PayloadDecoded)
            &&& event matches Event::Read(io) ==> io is Pending
            &&& !(action is Read)
        }) ==> after.read_buffer() == before.read_buffer(),
{
}

} // verus!
