//! The dispatcher as a state machine: what it waits for, what it is told, what it
//! asks for, and how one leads to the next.

use crate::buffer::{buffer_limit, HW_BUFFER_SIZE, LW_BUFFER_SIZE};
use crate::reader::{received, DispatchReader, DispatchReaderState, ReadStep};
use crate::service::{DispatchServiceHandler, Handled, HandlerStage, HandlerStep};
use crate::types::{
    BodySize, DispatchError, Feed, IoFailure, PayloadError, PayloadItem, PayloadStatus, PayloadType,
    Poll, Protocol, Request,
};
use crate::writer::{DispatchWriter, WriteStep, WriterStage, Written};
use vstd::prelude::*;

verus! {

/// What follows once the write buffer is out.
pub enum Then<T: Protocol> {
    /// The service is called.
    Serve { request: Request<T>, has_payload: bool },
    /// The next request is read.
    Read,
    /// The connection is closed.
    Close,
    /// The connection is closed on account of a request that did not parse.
    Refuse(T::ParseError),
}

/// What a dispatcher is at.
pub enum Phase<T: Protocol> {
    /// Reading a request.
    Reading(DispatchReader),
    /// Decoding what was read.
    Decoding(DispatchReaderState),
    /// Leaving the connection to the upgrade handler.
    Upgrading,
    /// Waiting for the expect handler.
    Expecting { has_payload: bool },
    /// Waiting for the service.
    Serving { handler: DispatchServiceHandler, has_payload: bool },
    /// Turning an error of the service into a response.
    Rendering { has_payload: bool },
    /// Encoding the head of a response.
    Responding { has_payload: bool, size: BodySize },
    /// Sending the write buffer, and maybe a body behind it.
    Sending { writer: DispatchWriter, then: Then<T> },
    /// Shutting the transport down, after a request that did not parse or not.
    Closing(Option<T::ParseError>),
    /// Nothing more.
    Ended,
}

/// What a dispatcher is told.
pub enum Event<'a, T: Protocol> {
    /// It is polled, for the first time or after it had to wait.
    Wake,
    /// What a read of the transport gave. No bytes mean that there are no more.
    Read(Poll<Result<&'a [u8], T::IoError>>),
    /// What was decoded, using up the first `consumed` bytes of the read buffer.
    Decoded {
        consumed: usize,
        message: Result<Option<(Request<T>, PayloadType)>, T::ParseError>,
    },
    /// What the upgrade handler came to.
    Upgraded(Poll<Result<(), T::ServiceError>>),
    /// What the expect handler came to.
    Expected(Poll<Result<Request<T>, T::ServiceError>>),
    /// What the service came to.
    Served(Poll<Result<(T::Response, BodySize), T::ServiceError>>),
    /// The response that stands for an error of the service.
    Rendered(T::Response, BodySize),
    /// What the payload channel wants.
    Status(PayloadStatus),
    /// What was decoded of the request body, using up the first `consumed` bytes of
    /// the read buffer.
    PayloadDecoded {
        consumed: usize,
        item: Result<Option<PayloadItem<T::Chunk>>, T::ParseError>,
    },
    /// The encoded head of a response, and whether the connection outlives it.
    HeadEncoded(Result<(&'a [u8], bool), T::IoError>),
    /// What the body of a response gave.
    Body(Poll<Option<Result<T::Chunk, T::ServiceError>>>),
    /// An encoded chunk, or the encoded end of the body.
    ChunkEncoded(Result<&'a [u8], T::IoError>),
    /// How many of the bytes not sent yet the transport took.
    Written(Poll<Result<usize, T::IoError>>),
    /// What shutting the transport down came to.
    ShutDown(Poll<Result<(), T::IoError>>),
}

/// What a dispatcher asks for.
pub enum Action<T: Protocol> {
    /// To be told nothing until it is polled again. What is pending sees to that, but for
    /// one case: where a body filled the buffer and all of that went out at once, nothing
    /// is pending, and whoever polls it has to do so again unasked.
    Wait,
    /// To read the transport, for which there is this much room in the read buffer.
    Read { room: usize },
    /// To decode a request from the read buffer.
    Decode,
    /// To call the upgrade handler, and poll it.
    CallUpgrade(Request<T>),
    /// To poll the upgrade handler.
    PollUpgrade,
    /// To call the expect handler, and poll it.
    CallExpect(Request<T>),
    /// To poll the expect handler.
    PollExpect,
    /// To call the service, and poll it.
    CallService(Request<T>),
    /// To poll the service.
    PollService,
    /// To turn an error of the service into a response.
    RenderError(T::ServiceError),
    /// To ask the payload channel what it wants.
    NeedRead,
    /// To decode the request body from the read buffer.
    DecodePayload,
    /// To encode the head of a response with a body of this size.
    EncodeHead(T::Response, BodySize),
    /// To poll the body of the response.
    PollBody,
    /// To encode a chunk of the body, or its end.
    EncodeChunk(Option<T::Chunk>),
    /// To write the bytes not sent yet to the transport.
    Write,
    /// To shut the transport down.
    ShutDown,
    /// To be dropped, with this as the outcome of it all.
    Done(Result<(), DispatchError<T>>),
    /// To be told something else: it is not waiting for what it was told, and stays
    /// as it is.
    OutOfTurn,
}

/// What a dispatcher answers: what goes into the payload channel, if anything, and
/// what it asks for after that.
pub struct Output<T: Protocol> {
    pub feed: Option<Feed<T::Chunk>>,
    pub action: Action<T>,
}

impl<T: Protocol> Output<T> {
    /// Whether this is the answer `plan`. What room there is for a read rests with the
    /// allocator: a plan names the least there must be.
    pub open spec fn realizes(self, plan: Self) -> bool {
        &&& self.feed == plan.feed
        &&& match self.action {
            Action::Read { room } => plan.action matches Action::Read { room: least } && room
                >= least,
            _ => self.action == plan.action,
        }
    }
}

/// What a dispatcher is and holds.
pub struct State<T: Protocol> {
    pub peer_addr: Option<T::Addr>,
    /// What came with the connection, until a request takes it along.
    pub on_connect_data: Option<T::ConnectData>,
    pub upgradeable: bool,
    pub max_buffer_size: usize,
    pub read_buf: Seq<u8>,
    pub write_buf: Seq<u8>,
    pub phase: Phase<T>,
}

/// The interim response that asks for a body held back.
pub open spec fn continue_bytes() -> Seq<u8> {
    vstd::utf8::encode_utf8("HTTP/1.1 100 Continue\r\n\r\n"@)
}

/// The response to a request that does not parse.
pub open spec fn bad_request_bytes() -> Seq<u8> {
    vstd::utf8::encode_utf8(
        "HTTP/1.1 400 Bad Request\r\ncontent-length: 0\r\nconnection: close\r\n\r\n"@,
    )
}

/// The fixed responses are short.
pub proof fn lemma_fixed_responses()
    ensures
        continue_bytes().len() == 25,
        bad_request_bytes().len() == 66,
{
    reveal_strlit("HTTP/1.1 100 Continue\r\n\r\n");
    reveal_strlit("HTTP/1.1 400 Bad Request\r\ncontent-length: 0\r\nconnection: close\r\n\r\n");
    vstd::utf8::is_ascii_chars_encode_utf8("HTTP/1.1 100 Continue\r\n\r\n"@);
    vstd::utf8::is_ascii_chars_encode_utf8(
        "HTTP/1.1 400 Bad Request\r\ncontent-length: 0\r\nconnection: close\r\n\r\n"@,
    );
}

/// A dispatcher that asks for `action`, with nothing fed.
pub open spec fn ask<T: Protocol>(state: State<T>, action: Action<T>) -> (State<T>, Output<T>) {
    (state, Output { feed: None, action })
}

impl<T: Protocol> State<T> {
    /// The same in another phase.
    pub open spec fn at(self, phase: Phase<T>) -> Self {
        State { phase, ..self }
    }

    /// The bytes encoded and not sent yet.
    pub open spec fn unsent(self) -> Seq<u8> {
        match self.phase {
            Phase::Sending {
                writer: DispatchWriter { stage: WriterStage::Flushing { written }, .. },
                ..
            } => self.write_buf.skip(written as int),
            _ => self.write_buf,
        }
    }

    /// Whether room can be made in the read buffer.
    pub open spec fn can_grow(self) -> bool {
        self.read_buf.len() + HW_BUFFER_SIZE <= buffer_limit()
    }

    /// What holds of every dispatcher: its buffers are within their limit, only while it
    /// sends has it anything to be sent, its writer or service handler is at a stage that
    /// it can be at, and what was read for a request is within bounds.
    pub open spec fn inv(self) -> bool {
        &&& self.can_grow()
        &&& self.write_buf.len() <= buffer_limit()
        &&& match self.phase {
            Phase::Reading(reader) => {
                &&& self.write_buf.len() == 0
                &&& reader.read_some ==> self.read_buf.len() <= self.max_buffer_size
            },
            Phase::Decoding(read) => {
                &&& self.write_buf.len() == 0
                &&& read is Partial ==> self.read_buf.len() <= self.max_buffer_size
            },
            Phase::Serving { handler, .. } => handler.inv() && self.write_buf.len() == 0,
            Phase::Sending { writer, .. } => writer.inv(self.write_buf.len()),
            Phase::Ended => true,
            _ => self.write_buf.len() == 0,
        }
    }

    /// Whether a dispatcher can be told this: nothing can be consumed that is not
    /// there, nor more written than was offered, and buffers have a limit.
    pub open spec fn admits(self, event: Event<'_, T>) -> bool {
        match event {
            Event::Read(io) => self.read_buf.len() + received(io).len() + HW_BUFFER_SIZE
                <= buffer_limit(),
            Event::Decoded { consumed, .. } => consumed <= self.read_buf.len(),
            Event::PayloadDecoded { consumed, .. } => consumed <= self.read_buf.len(),
            Event::HeadEncoded(Ok((bytes, _))) => bytes@.len() <= buffer_limit(),
            Event::ChunkEncoded(Ok(bytes)) => self.write_buf.len() + bytes@.len()
                <= buffer_limit(),
            Event::Written(Poll::Ready(Ok(count))) => count <= self.unsent().len(),
            _ => true,
        }
    }

    /// The end of it all.
    pub open spec fn ended(self, result: Result<(), DispatchError<T>>) -> (Self, Output<T>) {
        ask(self.at(Phase::Ended), Action::Done(result))
    }

    /// A request is read.
    pub open spec fn reading(self) -> (Self, Output<T>) {
        ask(
            self.at(Phase::Reading(DispatchReader { read_some: false })),
            Action::Read { room: LW_BUFFER_SIZE },
        )
    }

    /// The connection is closed.
    pub open spec fn closing(self, error: Option<T::ParseError>) -> (Self, Output<T>) {
        ask(self.at(Phase::Closing(error)), Action::ShutDown)
    }

    /// The service is called.
    pub open spec fn serving(self, request: Request<T>, has_payload: bool) -> (Self, Output<T>) {
        let handler = DispatchServiceHandler {
            payload: has_payload,
            reader: DispatchReader { read_some: false },
            stage: HandlerStage::Calling,
        };
        ask(self.at(Phase::Serving { handler, has_payload }), Action::CallService(request))
    }

    /// Goes on with a service handler that was polled.
    pub open spec fn handled(self, has_payload: bool, handled: Handled<T>) -> (Self, Output<T>) {
        (
            self.at(Phase::Serving { handler: handled.handler, has_payload }),
            Output {
                feed: handled.feed,
                action: match handled.step {
                    HandlerStep::PollService => Action::PollService,
                    HandlerStep::NeedRead => Action::NeedRead,
                    HandlerStep::DecodePayload => Action::DecodePayload,
                    HandlerStep::Read { room } => Action::Read { room },
                    HandlerStep::Pending => Action::Wait,
                },
            },
        )
    }

    /// What follows a write buffer that is out.
    pub open spec fn sent(self, then: Then<T>) -> (Self, Output<T>) {
        match then {
            Then::Serve { request, has_payload } => self.serving(request, has_payload),
            Then::Read => self.reading(),
            Then::Close => self.closing(None),
            Then::Refuse(error) => self.closing(Some(error)),
        }
    }

    /// Goes on with a writer that was polled.
    pub open spec fn written(self, written: Written<T>, then: Then<T>) -> (Self, Output<T>) {
        let state = State { write_buf: written.write_buf, ..self };
        let busy = state.at(Phase::Sending { writer: written.writer, then });
        match written.step {
            WriteStep::PollBody => ask(busy, Action::PollBody),
            WriteStep::EncodeChunk(chunk) => ask(busy, Action::EncodeChunk(chunk)),
            WriteStep::Write => ask(busy, Action::Write),
            WriteStep::Pending => ask(busy, Action::Wait),
            WriteStep::Ready(Ok(())) => state.sent(then),
            WriteStep::Ready(Err(error)) => state.ended(Err(error)),
        }
    }

    /// `bytes` are sent, and a body behind them if there is a `payload`.
    pub open spec fn sending(self, bytes: Seq<u8>, payload: bool, then: Then<T>) -> (
        Self,
        Output<T>,
    ) {
        self.written(DispatchWriter::filling(payload, self.write_buf + bytes), then)
    }

    /// A request that was decoded, with the address of the peer and what came with the
    /// connection. The latter cannot be shared, so the first request takes it along.
    pub open spec fn addressed(self, request: Request<T>) -> Request<T> {
        Request {
            peer_addr: self.peer_addr,
            on_connect_data: match self.on_connect_data {
                Some(data) => Some(data),
                None => request.on_connect_data,
            },
            ..request
        }
    }

    /// A request was decoded. One that takes the connection over goes to the upgrade
    /// handler, where there is one. Any other goes to the service, by way of the expect
    /// handler if its client holds the body back.
    pub open spec fn requested(self, request: Request<T>, payload_type: PayloadType) -> (
        Self,
        Output<T>,
    ) {
        let state = State { on_connect_data: None, ..self };
        let has_payload = !(payload_type is Absent);
        let addressed = self.addressed(request);
        let fed = Request { has_payload: request.has_payload || has_payload, ..addressed };
        if payload_type is Stream && self.upgradeable {
            ask(state.at(Phase::Upgrading), Action::CallUpgrade(addressed))
        } else if request.expect {
            ask(state.at(Phase::Expecting { has_payload }), Action::CallExpect(fed))
        } else {
            state.serving(fed, has_payload)
        }
    }

    /// What was decoded leads to this: a request is handled; more is read where that
    /// is needed and possible; what does not parse is refused.
    pub open spec fn decoded(
        self,
        read: DispatchReaderState,
        message: Result<Option<(Request<T>, PayloadType)>, T::ParseError>,
    ) -> (Self, Output<T>) {
        match message {
            Ok(Some((request, payload_type))) => self.requested(request, payload_type),
            Ok(None) => match read {
                DispatchReaderState::Partial => self.reading(),
                DispatchReaderState::All => self.closing(None),
            },
            Err(error) => self.sending(bad_request_bytes(), false, Then::Refuse(error)),
        }
    }

    /// What a read leads to while a request is waited for.
    pub open spec fn read(self, reader: DispatchReader, io: Poll<Result<&[u8], T::IoError>>) -> (
        Self,
        Output<T>,
    ) {
        let state = State { read_buf: self.read_buf + received(io), ..self };
        match reader.after(state.read_buf.len(), self.max_buffer_size, io) {
            ReadStep::Again { room } => ask(
                state.at(Phase::Reading(DispatchReader { read_some: true })),
                Action::Read { room },
            ),
            ReadStep::Pending => ask(state, Action::Wait),
            ReadStep::Ready(Ok(read)) => ask(state.at(Phase::Decoding(read)), Action::Decode),
            ReadStep::Ready(Err(_)) => state.closing(None),
        }
    }

    /// What is left of the read buffer behind its first `consumed` bytes.
    pub open spec fn consume(self, consumed: usize) -> Self {
        State { read_buf: self.read_buf.skip(consumed as int), ..self }
    }

    /// What an event leads to while the service is waited for.
    pub open spec fn serve(
        self,
        handler: DispatchServiceHandler,
        has_payload: bool,
        event: Event<'_, T>,
    ) -> (Self, Output<T>) {
        match (handler.stage, event) {
            (HandlerStage::Paused, Event::Wake) => self.handled(
                has_payload,
                handler.at(HandlerStage::Calling, HandlerStep::PollService),
            ),
            (HandlerStage::Calling, Event::Served(Poll::Pending)) => self.handled(
                has_payload,
                handler.after_pending(),
            ),
            (HandlerStage::Calling, Event::Served(Poll::Ready(Ok((response, size))))) => ask(
                self.at(Phase::Responding { has_payload, size }),
                Action::EncodeHead(response, size),
            ),
            (HandlerStage::Calling, Event::Served(Poll::Ready(Err(error)))) => ask(
                self.at(Phase::Rendering { has_payload }),
                Action::RenderError(error),
            ),
            (HandlerStage::Asking, Event::Status(status)) => self.handled(
                has_payload,
                handler.after_status(status),
            ),
            (HandlerStage::Decoding { fed }, Event::PayloadDecoded { consumed, item }) =>
                self.consume(consumed).handled(has_payload, handler.after_item(fed, item)),
            (HandlerStage::Reading { fed }, Event::Read(io)) => {
                let state = State { read_buf: self.read_buf + received(io), ..self };
                state.handled(
                    has_payload,
                    handler.after_read(fed, state.read_buf.len(), self.max_buffer_size, io),
                )
            },
            _ => ask(self, Action::OutOfTurn),
        }
    }

    /// What the encoded head of a response leads to: it is sent, and the body behind
    /// it if there is one; then the next request is read or the connection closed.
    pub open spec fn respond(
        self,
        has_payload: bool,
        size: BodySize,
        head: Result<(&[u8], bool), T::IoError>,
    ) -> (Self, Output<T>) {
        match head {
            Ok((bytes, keep_alive)) => self.sending(
                bytes@,
                size is Sized || size is Stream,
                if keep_alive {
                    Then::Read
                } else {
                    Then::Close
                },
            ),
            Err(error) => (
                self.at(Phase::Ended),
                Output {
                    feed: if has_payload {
                        Some(Feed::Error(PayloadError::Incomplete))
                    } else {
                        None
                    },
                    action: Action::Done(Err(DispatchError::Io(IoFailure::Reported(error)))),
                },
            ),
        }
    }

    /// What an event leads to while the write buffer is sent.
    pub open spec fn send(self, writer: DispatchWriter, then: Then<T>, event: Event<'_, T>) -> (
        Self,
        Output<T>,
    ) {
        match (writer.stage, event) {
            (WriterStage::Paused, Event::Wake) => self.sending(
                Seq::empty(),
                writer.payload,
                then,
            ),
            (WriterStage::Filling, Event::Body(item)) => self.written(
                writer.after_body(self.write_buf, item),
                then,
            ),
            (WriterStage::Encoding { last }, Event::ChunkEncoded(encoded)) => self.written(
                writer.after_encoding(last, self.write_buf, encoded),
                then,
            ),
            (WriterStage::Flushing { written }, Event::Written(io)) => self.written(
                writer.after_write(written, self.write_buf, io),
                then,
            ),
            _ => ask(self, Action::OutOfTurn),
        }
    }

    /// What an event leads to.
    pub open spec fn step(self, event: Event<'_, T>) -> (Self, Output<T>) {
        match (self.phase, event) {
            (Phase::Reading(_), Event::Wake) => ask(self, Action::Read { room: LW_BUFFER_SIZE }),
            (Phase::Reading(reader), Event::Read(io)) => self.read(reader, io),
            (Phase::Decoding(read), Event::Decoded { consumed, message }) => self.consume(
                consumed,
            ).decoded(read, message),
            (Phase::Upgrading, Event::Wake) => ask(self, Action::PollUpgrade),
            (Phase::Upgrading, Event::Upgraded(Poll::Pending)) => ask(self, Action::Wait),
            (Phase::Upgrading, Event::Upgraded(Poll::Ready(Ok(())))) => self.ended(Ok(())),
            (Phase::Upgrading, Event::Upgraded(Poll::Ready(Err(_)))) => self.ended(
                Err(DispatchError::Upgrade),
            ),
            (Phase::Expecting { .. }, Event::Wake) => ask(self, Action::PollExpect),
            (Phase::Expecting { .. }, Event::Expected(Poll::Pending)) => ask(self, Action::Wait),
            (Phase::Expecting { has_payload }, Event::Expected(Poll::Ready(Ok(request)))) =>
                self.sending(continue_bytes(), false, Then::Serve { request, has_payload }),
            (Phase::Expecting { .. }, Event::Expected(Poll::Ready(Err(error)))) => self.ended(
                Err(DispatchError::Service(error)),
            ),
            (Phase::Serving { handler, has_payload }, event) => self.serve(
                handler,
                has_payload,
                event,
            ),
            (Phase::Rendering { has_payload }, Event::Rendered(response, size)) => ask(
                self.at(Phase::Responding { has_payload, size }),
                Action::EncodeHead(response, size),
            ),
            (Phase::Responding { has_payload, size }, Event::HeadEncoded(head)) => self.respond(
                has_payload,
                size,
                head,
            ),
            (Phase::Sending { writer, then }, event) => self.send(writer, then, event),
            (Phase::Closing(_), Event::Wake) => ask(self, Action::ShutDown),
            (Phase::Closing(_), Event::ShutDown(Poll::Pending)) => ask(self, Action::Wait),
            (Phase::Closing(error), Event::ShutDown(Poll::Ready(_))) => self.ended(
                match error {
                    Some(error) => Err(DispatchError::Parse(error)),
                    None => Ok(()),
                },
            ),
            _ => ask(self, Action::OutOfTurn),
        }
    }
}

} // verus!
