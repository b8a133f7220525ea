//! The dispatcher of one connection.

use crate::buffer::{
    advance, allocated_at_least, as_slice, buffer_limit, contents, grows, ready_to_fill,
    ReadWriteBuf, HW_BUFFER_SIZE,
};
use crate::laws::law_invariant_kept;
use crate::model::{lemma_fixed_responses, Action, Event, Output, Phase, State, Then};
use crate::reader::{received, DispatchReader, DispatchReaderState, ReadStep};
use crate::service::{DispatchServiceHandler, HandlerStage, HandlerStep};
use crate::types::{
    BodySize, DispatchError, Feed, IoFailure, PayloadError, PayloadType, Poll, Protocol, Request,
};
use crate::writer::{DispatchWriter, WriteStep, WriterStage};
use bytes::BytesMut;
use vstd::prelude::*;

verus! {

/// A connection on which requests are read and answered one after the other.
pub struct Dispatcher<T: Protocol> {
    peer_addr: Option<T::Addr>,
    on_connect_data: Option<T::ConnectData>,
    upgradeable: bool,
    max_buffer_size: usize,
    read_buf: BytesMut,
    write_buf: BytesMut,
    phase: Phase<T>,
}

/// What an upgrade handler takes over with the transport.
pub struct FramedParts {
    /// The bytes read and not decoded yet.
    pub read_buf: BytesMut,
    /// The bytes encoded and not sent yet.
    pub write_buf: BytesMut,
}

impl<T: Protocol> View for Dispatcher<T> {
    type V = State<T>;

    closed spec fn view(&self) -> State<T> {
        State {
            peer_addr: self.peer_addr,
            on_connect_data: self.on_connect_data,
            upgradeable: self.upgradeable,
            max_buffer_size: self.max_buffer_size,
            read_buf: contents(self.read_buf),
            write_buf: contents(self.write_buf),
            phase: self.phase,
        }
    }
}

/// Nothing was read, and nothing decoded.
pub open spec fn keeps_read_buffer<T: Protocol>(event: Event<'_, T>) -> bool {
    match event {
        Event::Read(io) => io is Pending,
        Event::Decoded { .. } | Event::PayloadDecoded { .. } => false,
        _ => true,
    }
}

fn ask<T: Protocol>(action: Action<T>) -> (output: Output<T>)
    ensures
        output == (Output { feed: None, action }),
{
    Output { feed: None, action }
}

impl<T: Protocol> Dispatcher<T> {
    /// The buffer that is read into.
    pub closed spec fn read_buffer(self) -> BytesMut {
        self.read_buf
    }

    /// The buffer that is written from.
    pub closed spec fn write_buffer(self) -> BytesMut {
        self.write_buf
    }

    /// Its buffers have the room that `action` speaks of: for a read, in the one that is
    /// read into; for more of a response body, in the one that is written from.
    pub open spec fn has_room_for(self, action: Action<T>) -> bool {
        &&& action matches Action::Read { room } ==> self.read_buffer().roomy(room)
        &&& action is PollBody ==> ready_to_fill(self.write_buffer())
    }

    /// The buffer that is read into is that of `before`: grown, if `action` is a read, else
    /// left as it is.
    pub open spec fn grew_for(self, before: Self, action: Action<T>) -> bool {
        match action {
            Action::Read { room } => grows(before.read_buffer(), self.read_buffer(), room),
            _ => self.read_buffer() == before.read_buffer(),
        }
    }

    /// The view of a dispatcher holds what its buffers hold.
    pub proof fn lemma_buffers(self)
        ensures
            self@.read_buf == contents(self.read_buffer()),
            self@.write_buf == contents(self.write_buffer()),
    {
    }

    /// A dispatcher that has yet to read its first request.
    pub fn new(
        peer_addr: Option<T::Addr>,
        on_connect_data: Option<T::ConnectData>,
        upgradeable: bool,
        max_buffer_size: usize,
    ) -> (d: Self)
        ensures
            d@ == (State {
                peer_addr,
                on_connect_data,
                upgradeable,
                max_buffer_size,
                read_buf: Seq::empty(),
                write_buf: Seq::empty(),
                phase: Phase::<T>::Reading(DispatchReader { read_some: false }),
            }),
            d@.inv(),
            allocated_at_least(d.read_buffer(), HW_BUFFER_SIZE as int),
            allocated_at_least(d.write_buffer(), HW_BUFFER_SIZE as int),
    {
        Dispatcher {
            peer_addr,
            on_connect_data,
            upgradeable,
            max_buffer_size,
            read_buf: BytesMut::with_capacity(HW_BUFFER_SIZE),
            write_buf: BytesMut::with_capacity(HW_BUFFER_SIZE),
            phase: Phase::Reading(DispatchReader::new()),
        }
    }

    /// Puts the address of the peer into a request.
    pub fn set_peer_addr(&self, request: &mut Request<T>)
        ensures
            *final(request) == (Request { peer_addr: self@.peer_addr, ..*old(request) }),
    {
        request.peer_addr = self.peer_addr;
    }

    /// Hands what came with the connection to a request.
    pub fn set_on_connect_data(&mut self, request: &mut Request<T>)
        ensures
            final(self)@ == (State { on_connect_data: None, ..old(self)@ }),
            final(self).read_buffer() == old(self).read_buffer(),
            final(self).write_buffer() == old(self).write_buffer(),
            *final(request) == (Request {
                on_connect_data: match old(self)@.on_connect_data {
                    Some(data) => Some(data),
                    None => old(request).on_connect_data,
                },
                ..*old(request)
            }),
    {
        if let Some(data) = self.on_connect_data.take() {
            request.on_connect_data = Some(data);
        }
    }

    /// Whether there is an upgrade handler.
    pub fn is_upgradeable(&self) -> (upgradeable: bool)
        ensures
            upgradeable == self@.upgradeable,
    {
        self.upgradeable
    }

    /// What it is at.
    pub fn phase(&self) -> (phase: &Phase<T>)
        ensures
            *phase == self@.phase,
    {
        &self.phase
    }

    /// The bytes read and not decoded yet.
    pub fn read_buf(&self) -> (bytes: &[u8])
        ensures
            bytes@ == self@.read_buf,
    {
        as_slice(&self.read_buf)
    }

    /// The bytes encoded and not sent yet: what there is to be written.
    pub fn unsent(&self) -> (bytes: &[u8])
        requires
            self@.inv(),
        ensures
            bytes@ == self@.unsent(),
    {
        let bytes = as_slice(&self.write_buf);
        match &self.phase {
            Phase::Sending { writer, .. } => match writer.stage {
                WriterStage::Flushing { written } => vstd::slice::slice_subrange(
                    bytes,
                    written,
                    bytes.len(),
                ),
                _ => bytes,
            },
            _ => bytes,
        }
    }

    /// Hands both buffers over to the upgrade handler.
    pub fn framed_parts(&mut self) -> (parts: FramedParts)
        requires
            old(self)@.phase is Upgrading,
        ensures
            parts.read_buf == old(self).read_buffer(),
            parts.write_buf == old(self).write_buffer(),
            contents(parts.read_buf) == old(self)@.read_buf,
            contents(parts.write_buf) == old(self)@.write_buf,
            final(self)@ == (State {
                read_buf: Seq::empty(),
                write_buf: Seq::empty(),
                ..old(self)@
            }),
            final(self)@.inv(),
    {
        let mut read_buf = BytesMut::with_capacity(0);
        let mut write_buf = BytesMut::with_capacity(0);
        std::mem::swap(&mut read_buf, &mut self.read_buf);
        std::mem::swap(&mut write_buf, &mut self.write_buf);
        FramedParts { read_buf, write_buf }
    }

    /// Starts to read a request.
    fn read(&mut self) -> (output: Output<T>)
        requires
            old(self)@.can_grow(),
        ensures
            final(self)@ == old(self)@.reading().0,
            output.realizes(old(self)@.reading().1),
            final(self).has_room_for(output.action),
            final(self).grew_for(*old(self), output.action),
    {
        self.phase = Phase::Reading(DispatchReader::new());
        ask(Action::Read { room: self.read_buf.grow() })
    }

    /// Starts to close the connection.
    fn stop(&mut self, error: Option<T::ParseError>) -> (output: Output<T>)
        ensures
            (final(self)@, output) == old(self)@.closing(error),
            final(self).read_buffer() == old(self).read_buffer(),
    {
        self.phase = Phase::Closing(error);
        ask(Action::ShutDown)
    }

    /// Ends.
    fn end(&mut self, result: Result<(), DispatchError<T>>) -> (output: Output<T>)
        ensures
            (final(self)@, output) == old(self)@.ended(result),
            final(self).read_buffer() == old(self).read_buffer(),
    {
        self.phase = Phase::Ended;
        ask(Action::Done(result))
    }

    /// Calls the service.
    fn service_call(&mut self, request: Request<T>, has_payload: bool) -> (output: Output<T>)
        ensures
            (final(self)@, output) == old(self)@.serving(request, has_payload),
            final(self).read_buffer() == old(self).read_buffer(),
    {
        self.phase = Phase::Serving {
            handler: DispatchServiceHandler::new(has_payload),
            has_payload,
        };
        ask(Action::CallService(request))
    }

    /// Goes on as a writer that was polled asks for.
    fn written(&mut self, writer: DispatchWriter, then: Then<T>, step: WriteStep<T>) -> (output:
        Output<T>)
        requires
            old(self)@.can_grow(),
            step is PollBody ==> ready_to_fill(old(self).write_buffer()),
        ensures
            final(self)@ == old(self)@.written(
                crate::writer::Written { writer, write_buf: old(self)@.write_buf, step },
                then,
            ).0,
            output.realizes(old(self)@.written(
                crate::writer::Written { writer, write_buf: old(self)@.write_buf, step },
                then,
            ).1),
            final(self).has_room_for(output.action),
            final(self).grew_for(*old(self), output.action),
    {
        let action = match step {
            WriteStep::PollBody => Action::PollBody,
            WriteStep::EncodeChunk(chunk) => Action::EncodeChunk(chunk),
            WriteStep::Write => Action::Write,
            WriteStep::Pending => Action::Wait,
            WriteStep::Ready(Ok(())) => return match then {
                Then::Serve { request, has_payload } => self.service_call(request, has_payload),
                Then::Read => self.read(),
                Then::Close => self.stop(None),
                Then::Refuse(error) => self.stop(Some(error)),
            },
            WriteStep::Ready(Err(error)) => return self.end(Err(error)),
        };
        self.phase = Phase::Sending { writer, then };
        ask(action)
    }

    /// Starts to send the write buffer, and a body behind it if there is a `payload`.
    fn send_payload(&mut self, payload: bool, then: Then<T>) -> (output: Output<T>)
        requires
            old(self)@.can_grow(),
        ensures
            final(self)@ == old(self)@.sending(Seq::empty(), payload, then).0,
            output.realizes(old(self)@.sending(Seq::empty(), payload, then).1),
            final(self).has_room_for(output.action),
            final(self).grew_for(*old(self), output.action),
    {
        let mut writer = DispatchWriter { payload, stage: WriterStage::Paused };
        assert(self@.write_buf + Seq::<u8>::empty() =~= self@.write_buf);
        let step = writer.poll(&mut self.write_buf);
        self.written(writer, then, step)
    }

    /// Leaves the connection to the upgrade handler.
    fn upgrade(&mut self, request: Request<T>) -> (output: Output<T>)
        ensures
            (final(self)@, output) == (
                old(self)@.at(Phase::Upgrading),
                Output { feed: None, action: Action::CallUpgrade(request) },
            ),
            final(self).read_buffer() == old(self).read_buffer(),
    {
        self.phase = Phase::Upgrading;
        ask(Action::CallUpgrade(request))
    }

    /// Handles a request that was decoded.
    fn request(&mut self, request: Request<T>, payload_type: PayloadType) -> (output: Output<T>)
        ensures
            (final(self)@, output) == old(self)@.requested(request, payload_type),
            final(self).read_buffer() == old(self).read_buffer(),
    {
        let mut request = request;
        self.set_peer_addr(&mut request);
        self.set_on_connect_data(&mut request);
        let has_payload = match payload_type {
            PayloadType::Stream => {
                if self.is_upgradeable() {
                    return self.upgrade(request);
                }
                true
            },
            PayloadType::Payload => true,
            PayloadType::Absent => false,
        };
        if has_payload {
            request.has_payload = true;
        }
        if request.expect {
            self.phase = Phase::Expecting { has_payload };
            ask(Action::CallExpect(request))
        } else {
            self.service_call(request, has_payload)
        }
    }

    /// Takes in what a read gave while a request is waited for.
    fn poll_read(&mut self, reader: DispatchReader, io: Poll<Result<&[u8], T::IoError>>) -> (output:
        Output<T>)
        requires
            old(self)@.read_buf.len() + received(io).len() + HW_BUFFER_SIZE <= buffer_limit(),
        ensures
            final(self)@ == old(self)@.at(Phase::Reading(reader)).read(reader, io).0,
            output.realizes(old(self)@.at(Phase::Reading(reader)).read(reader, io).1),
            final(self).has_room_for(output.action),
            io is Pending ==> final(self).grew_for(*old(self), output.action),
    {
        let mut reader = reader;
        match reader.poll(&mut self.read_buf, self.max_buffer_size, io) {
            ReadStep::Again { room } => {
                self.phase = Phase::Reading(reader);
                ask(Action::Read { room })
            },
            ReadStep::Pending => {
                self.phase = Phase::Reading(reader);
                ask(Action::Wait)
            },
            ReadStep::Ready(Ok(read)) => {
                self.phase = Phase::Decoding(read);
                ask(Action::Decode)
            },
            ReadStep::Ready(Err(_)) => self.stop(None),
        }
    }

    /// Takes in what was decoded.
    fn decoded(
        &mut self,
        read: DispatchReaderState,
        consumed: usize,
        message: Result<Option<(Request<T>, PayloadType)>, T::ParseError>,
    ) -> (output: Output<T>)
        requires
            old(self)@.can_grow(),
            consumed <= old(self)@.read_buf.len(),
            old(self)@.write_buf.len() == 0,
        ensures
            final(self)@ == old(self)@.consume(consumed).decoded(read, message).0,
            output.realizes(old(self)@.consume(consumed).decoded(read, message).1),
            final(self).has_room_for(output.action),
    {
        advance(&mut self.read_buf, consumed);
        match message {
            Ok(Some((request, payload_type))) => self.request(request, payload_type),
            Ok(None) => match read {
                DispatchReaderState::Partial => self.read(),
                DispatchReaderState::All => self.stop(None),
            },
            Err(error) => {
                let text =
                    "HTTP/1.1 400 Bad Request\r\ncontent-length: 0\r\nconnection: close\r\n\r\n";
                let bytes: &[u8] = text.as_bytes();
                proof {
                    lemma_fixed_responses();
                }
                self.send(bytes, false, Then::Refuse(error))
            },
        }
    }

    /// Starts to send `bytes`, and a body behind them if there is a `payload`.
    fn send(&mut self, bytes: &[u8], payload: bool, then: Then<T>) -> (output: Output<T>)
        requires
            old(self)@.can_grow(),
            old(self)@.write_buf.len() + bytes@.len() <= buffer_limit(),
        ensures
            final(self)@ == old(self)@.sending(bytes@, payload, then).0,
            output.realizes(old(self)@.sending(bytes@, payload, then).1),
            final(self).has_room_for(output.action),
            final(self).grew_for(*old(self), output.action),
    {
        self.write_buf.extend_from_slice(bytes);
        assert(self@.write_buf + Seq::<u8>::empty() =~= self@.write_buf);
        self.send_payload(payload, then)
    }

    /// Takes in what the expect handler came to.
    fn expect(
        &mut self,
        has_payload: bool,
        result: Poll<Result<Request<T>, T::ServiceError>>,
    ) -> (output: Output<T>)
        requires
            old(self)@.can_grow(),
            old(self)@.write_buf.len() == 0,
        ensures
            final(self)@ == old(self)@.at(Phase::Expecting { has_payload }).step(
                Event::Expected(result),
            ).0,
            output.realizes(old(self)@.at(Phase::Expecting { has_payload }).step(
                Event::Expected(result),
            ).1),
            final(self).has_room_for(output.action),
            final(self).grew_for(*old(self), output.action),
    {
        match result {
            Poll::Pending => {
                self.phase = Phase::Expecting { has_payload };
                ask(Action::Wait)
            },
            Poll::Ready(Ok(request)) => {
                let bytes: &[u8] = "HTTP/1.1 100 Continue\r\n\r\n".as_bytes();
                proof {
                    lemma_fixed_responses();
                }
                self.send(bytes, false, Then::Serve { request, has_payload })
            },
            Poll::Ready(Err(error)) => self.end(Err(DispatchError::Service(error))),
        }
    }

    /// Goes on as a service handler that was polled asks for.
    fn handled(
        &mut self,
        handler: DispatchServiceHandler,
        has_payload: bool,
        feed: Option<Feed<T::Chunk>>,
        step: HandlerStep,
    ) -> (output: Output<T>)
        ensures
            (final(self)@, output) == old(self)@.handled(
                has_payload,
                crate::service::Handled { handler, feed, step },
            ),
            final(self).read_buffer() == old(self).read_buffer(),
            final(self).write_buffer() == old(self).write_buffer(),
    {
        self.phase = Phase::Serving { handler, has_payload };
        let action = match step {
            HandlerStep::PollService => Action::PollService,
            HandlerStep::NeedRead => Action::NeedRead,
            HandlerStep::DecodePayload => Action::DecodePayload,
            HandlerStep::Read { room } => Action::Read { room },
            HandlerStep::Pending => Action::Wait,
        };
        Output { feed, action }
    }

    /// Takes in an event while the service is waited for.
    fn poll_service(
        &mut self,
        handler: DispatchServiceHandler,
        has_payload: bool,
        event: Event<'_, T>,
    ) -> (output: Output<T>)
        requires
            old(self)@.can_grow(),
            old(self)@.admits(event),
        ensures
            final(self)@ == old(self)@.at(Phase::Serving { handler, has_payload }).serve(
                handler,
                has_payload,
                event,
            ).0,
            output.realizes(old(self)@.at(Phase::Serving { handler, has_payload }).serve(
                handler,
                has_payload,
                event,
            ).1),
            final(self).has_room_for(output.action),
            keeps_read_buffer(event) ==> final(self).grew_for(*old(self), output.action),
    {
        let mut handler = handler;
        match (handler.stage, event) {
            (HandlerStage::Paused, Event::Wake) => {
                let step = handler.poll();
                self.handled(handler, has_payload, None, step)
            },
            (HandlerStage::Calling, Event::Served(Poll::Pending)) => {
                let step = handler.poll_pending::<T>();
                self.handled(handler, has_payload, None, step)
            },
            (HandlerStage::Calling, Event::Served(Poll::Ready(Ok((response, size))))) => {
                self.phase = Phase::Responding { has_payload, size };
                ask(Action::EncodeHead(response, size))
            },
            (HandlerStage::Calling, Event::Served(Poll::Ready(Err(error)))) => {
                self.phase = Phase::Rendering { has_payload };
                ask(Action::RenderError(error))
            },
            (HandlerStage::Asking, Event::Status(status)) => {
                let step = handler.poll_status::<T>(status);
                self.handled(handler, has_payload, None, step)
            },
            (HandlerStage::Decoding { fed }, Event::PayloadDecoded { consumed, item }) => {
                let (feed, step) = handler.poll_item::<T>(fed, &mut self.read_buf, consumed, item);
                self.handled(handler, has_payload, feed, step)
            },
            (HandlerStage::Reading { fed }, Event::Read(io)) => {
                let (feed, step) = handler.poll_read::<T>(
                    fed,
                    &mut self.read_buf,
                    self.max_buffer_size,
                    io,
                );
                self.handled(handler, has_payload, feed, step)
            },
            _ => {
                self.phase = Phase::Serving { handler, has_payload };
                ask(Action::OutOfTurn)
            },
        }
    }

    /// Takes in the encoded head of a response.
    fn respond(
        &mut self,
        has_payload: bool,
        size: BodySize,
        head: Result<(&[u8], bool), T::IoError>,
    ) -> (output: Output<T>)
        requires
            old(self)@.can_grow(),
            old(self)@.write_buf.len() == 0,
            head matches Ok((bytes, _)) ==> bytes@.len() <= buffer_limit(),
        ensures
            final(self)@ == old(self)@.respond(has_payload, size, head).0,
            output.realizes(old(self)@.respond(has_payload, size, head).1),
            final(self).has_room_for(output.action),
            final(self).grew_for(*old(self), output.action),
    {
        match head {
            Ok((bytes, keep_alive)) => {
                let payload = match size {
                    BodySize::Absent | BodySize::Empty => false,
                    _ => true,
                };
                let then = if keep_alive {
                    Then::Read
                } else {
                    Then::Close
                };
                self.send(bytes, payload, then)
            },
            Err(error) => {
                self.phase = Phase::Ended;
                Output {
                    feed: if has_payload {
                        Some(Feed::Error(PayloadError::Incomplete))
                    } else {
                        None
                    },
                    action: Action::Done(Err(DispatchError::Io(IoFailure::Reported(error)))),
                }
            },
        }
    }

    /// Takes in an event while the write buffer is sent.
    fn poll_send(&mut self, writer: DispatchWriter, then: Then<T>, event: Event<'_, T>) -> (output:
        Output<T>)
        requires
            old(self)@.can_grow(),
            old(self)@.at(Phase::Sending { writer, then }).inv(),
            old(self)@.at(Phase::Sending { writer, then }).admits(event),
        ensures
            final(self)@ == old(self)@.at(Phase::Sending { writer, then }).send(
                writer,
                then,
                event,
            ).0,
            output.realizes(old(self)@.at(Phase::Sending { writer, then }).send(
                writer,
                then,
                event,
            ).1),
            final(self).has_room_for(output.action),
            final(self).grew_for(*old(self), output.action),
    {
        let mut writer = writer;
        let step = match (writer.stage, event) {
            (WriterStage::Paused, Event::Wake) => {
                return self.send_payload(writer.payload, then);
            },
            (WriterStage::Filling, Event::Body(item)) => writer.poll_body(
                &mut self.write_buf,
                item,
            ),
            (WriterStage::Encoding { last }, Event::ChunkEncoded(encoded)) => writer.poll_encoded(
                last,
                &mut self.write_buf,
                encoded,
            ),
            (WriterStage::Flushing { written }, Event::Written(io)) => writer.poll_write(
                written,
                &mut self.write_buf,
                io,
            ),
            _ => {
                self.phase = Phase::Sending { writer, then };
                return ask(Action::OutOfTurn);
            },
        };
        self.written(writer, then, step)
    }
}

/// Tells a dispatcher what happened, and returns what it wants to happen next. Before each
/// read that it asks for, room is made in the read buffer for what that brings, and in the
/// write buffer before more of a response body is asked for.
#[verifier::rlimit(30)]
pub fn h1_dispatch<T: Protocol>(dispatcher: &mut Dispatcher<T>, event: Event<'_, T>) -> (output:
    Output<T>)
    requires
        old(dispatcher)@.inv(),
        old(dispatcher)@.admits(event),
    ensures
        final(dispatcher)@ == old(dispatcher)@.step(event).0,
        output.realizes(old(dispatcher)@.step(event).1),
        final(dispatcher)@.inv(),
        final(dispatcher).has_room_for(output.action),
        keeps_read_buffer(event) ==> final(dispatcher).grew_for(*old(dispatcher), output.action),
{
    proof {
        law_invariant_kept(dispatcher@, event);
    }
    let mut phase = Phase::Ended;
    std::mem::swap(&mut phase, &mut dispatcher.phase);
    match (phase, event) {
        (Phase::Reading(reader), Event::Wake) => {
            dispatcher.phase = Phase::Reading(reader);
            ask(Action::Read { room: dispatcher.read_buf.grow() })
        },
        (Phase::Reading(reader), Event::Read(io)) => dispatcher.poll_read(reader, io),
        (Phase::Decoding(read), Event::Decoded { consumed, message }) => dispatcher.decoded(
            read,
            consumed,
            message,
        ),
        (Phase::Upgrading, Event::Wake) => {
            dispatcher.phase = Phase::Upgrading;
            ask(Action::PollUpgrade)
        },
        (Phase::Upgrading, Event::Upgraded(result)) => match result {
            Poll::Pending => {
                dispatcher.phase = Phase::Upgrading;
                ask(Action::Wait)
            },
            Poll::Ready(Ok(())) => dispatcher.end(Ok(())),
            Poll::Ready(Err(_)) => dispatcher.end(Err(DispatchError::Upgrade)),
        },
        (Phase::Expecting { has_payload }, Event::Wake) => {
            dispatcher.phase = Phase::Expecting { has_payload };
            ask(Action::PollExpect)
        },
        (Phase::Expecting { has_payload }, Event::Expected(result)) => dispatcher.expect(
            has_payload,
            result,
        ),
        (Phase::Serving { handler, has_payload }, event) => dispatcher.poll_service(
            handler,
            has_payload,
            event,
        ),
        (Phase::Rendering { has_payload }, Event::Rendered(response, size)) => {
            dispatcher.phase = Phase::Responding { has_payload, size };
            ask(Action::EncodeHead(response, size))
        },
        (Phase::Responding { has_payload, size }, Event::HeadEncoded(head)) => dispatcher.respond(
            has_payload,
            size,
            head,
        ),
        (Phase::Sending { writer, then }, event) => dispatcher.poll_send(writer, then, event),
        (Phase::Closing(error), Event::Wake) => {
            dispatcher.phase = Phase::Closing(error);
            ask(Action::ShutDown)
        },
        (Phase::Closing(error), Event::ShutDown(result)) => match result {
            Poll::Pending => {
                dispatcher.phase = Phase::Closing(error);
                ask(Action::Wait)
            },
            Poll::Ready(_) => match error {
                Some(error) => dispatcher.end(Err(DispatchError::Parse(error))),
                None => dispatcher.end(Ok(())),
            },
        },
        (phase, _) => {
            dispatcher.phase = phase;
            ask(Action::OutOfTurn)
        },
    }
}

} // verus!
