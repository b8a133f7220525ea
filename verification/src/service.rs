//! Waiting for a service, and feeding it the request body meanwhile.

use crate::buffer::{
    advance, buffer_limit, contents, ReadWriteBuf, HW_BUFFER_SIZE, LW_BUFFER_SIZE,
};
use crate::reader::{received, DispatchReader, ReadStep};
use crate::types::{Feed, PayloadError, PayloadItem, PayloadStatus, Poll, Protocol};
use bytes::BytesMut;
use vstd::prelude::*;

verus! {

/// How far a service handler is. Whether a chunk was fed during this poll is
/// kept in `fed`.
#[derive(Clone, Copy, Debug, PartialEq, Eq)]
pub enum HandlerStage {
    /// It is not being polled.
    Paused,
    /// The service is polled.
    Calling,
    /// The payload channel is asked whether it wants more.
    Asking,
    /// The request body is decoded.
    Decoding { fed: bool },
    /// More is read from the transport.
    Reading { fed: bool },
}

/// Polls a service and, while that is pending, moves the request body from the
/// transport to it.
#[derive(Clone, Copy, Debug, PartialEq, Eq)]
pub struct DispatchServiceHandler {
    /// Whether there is a request body that is still to be fed.
    pub payload: bool,
    pub reader: DispatchReader,
    pub stage: HandlerStage,
}

/// What a service handler asks for.
#[derive(Clone, Copy, Debug, PartialEq, Eq)]
pub enum HandlerStep {
    /// The service polled.
    PollService,
    /// The payload channel asked whether it wants more.
    NeedRead,
    /// The next item of the request body decoded.
    DecodePayload,
    /// The transport read, for which there is this much room in the buffer.
    Read { room: usize },
    /// Nothing until the service, the payload channel or the transport is ready.
    Pending,
}

/// What a poll leaves behind it: the handler, what goes into the payload channel
/// and what to do after that.
pub struct Handled<T: Protocol> {
    pub handler: DispatchServiceHandler,
    pub feed: Option<Feed<T::Chunk>>,
    pub step: HandlerStep,
}

impl HandlerStep {
    /// Whether this is the step `plan`, which names the least room that a read must have.
    pub open spec fn realizes(self, plan: Self) -> bool {
        match self {
            HandlerStep::Read { room } => plan matches HandlerStep::Read { room: least } && room
                >= least,
            _ => self == plan,
        }
    }
}

impl<T: Protocol> Handled<T> {
    /// Whether this is what `plan` says, but for more room to read than that names.
    pub open spec fn realizes(self, plan: Self) -> bool {
        &&& self.handler == plan.handler
        &&& self.feed == plan.feed
        &&& self.step.realizes(plan.step)
    }
}

impl DispatchServiceHandler {
    /// The handler at another stage, with nothing fed.
    pub open spec fn at<T: Protocol>(self, stage: HandlerStage, step: HandlerStep) -> Handled<T> {
        Handled { handler: DispatchServiceHandler { stage, ..self }, feed: None, step }
    }

    /// The request body is given up, with `feed` as the last thing to be fed. Where a
    /// chunk was fed before, the service is polled at once, else not until later.
    pub open spec fn detached<T: Protocol>(self, fed: bool, feed: Feed<T::Chunk>) -> Handled<T> {
        Handled {
            handler: DispatchServiceHandler {
                payload: false,
                stage: if fed {
                    HandlerStage::Calling
                } else {
                    HandlerStage::Paused
                },
                ..self
            },
            feed: Some(feed),
            step: if fed {
                HandlerStep::PollService
            } else {
                HandlerStep::Pending
            },
        }
    }

    /// What follows where the service is pending: the channel is asked, if there is
    /// still a body to be fed.
    pub open spec fn after_pending<T: Protocol>(self) -> Handled<T> {
        if self.payload {
            self.at(HandlerStage::Asking, HandlerStep::NeedRead)
        } else {
            self.at(HandlerStage::Paused, HandlerStep::Pending)
        }
    }

    /// What the payload channel's answer leads to.
    pub open spec fn after_status<T: Protocol>(self, status: PayloadStatus) -> Handled<T> {
        match status {
            PayloadStatus::Read => self.at(
                HandlerStage::Decoding { fed: false },
                HandlerStep::DecodePayload,
            ),
            PayloadStatus::Pause => self.at(HandlerStage::Paused, HandlerStep::Pending),
            PayloadStatus::Dropped => (DispatchServiceHandler { payload: false, ..self }).at(
                HandlerStage::Paused,
                HandlerStep::Pending,
            ),
        }
    }

    /// What a decoded item leads to: a chunk is fed, the end is fed as the last thing,
    /// an error likewise, and where nothing could be decoded more is read.
    pub open spec fn after_item<T: Protocol>(
        self,
        fed: bool,
        item: Result<Option<PayloadItem<T::Chunk>>, T::ParseError>,
    ) -> Handled<T> {
        match item {
            Ok(Some(PayloadItem::Chunk(chunk))) => Handled {
                handler: DispatchServiceHandler {
                    stage: HandlerStage::Decoding { fed: true },
                    ..self
                },
                feed: Some(Feed::Data(chunk)),
                step: HandlerStep::DecodePayload,
            },
            Ok(Some(PayloadItem::Eof)) => self.detached(fed, Feed::Eof),
            Ok(None) => self.at(
                HandlerStage::Reading { fed },
                HandlerStep::Read { room: LW_BUFFER_SIZE },
            ),
            Err(_) => self.detached(fed, Feed::Error(PayloadError::EncodingCorrupted)),
        }
    }

    /// What a read of the transport leads to, where `held` bytes are buffered once
    /// what it brought is among them. A transport at its end has the body decoded again,
    /// and so has, once the handler's reader has read anything, one that is pending. Where
    /// the decoder then finds nothing still, decoding and reading take turns within one
    /// poll, without end if nothing new comes.
    pub open spec fn after_read<T: Protocol>(
        self,
        fed: bool,
        held: nat,
        max_buffer_size: usize,
        io: Poll<Result<&[u8], T::IoError>>,
    ) -> Handled<T> {
        let step = self.reader.after(held, max_buffer_size, io);
        let handler = DispatchServiceHandler {
            reader: DispatchReader { read_some: self.reader.read_some || step is Again },
            ..self
        };
        match step {
            ReadStep::Again { room } => handler.at(
                HandlerStage::Reading { fed },
                HandlerStep::Read { room },
            ),
            ReadStep::Pending => handler.at(HandlerStage::Paused, HandlerStep::Pending),
            ReadStep::Ready(Ok(_)) => handler.at(
                HandlerStage::Decoding { fed },
                HandlerStep::DecodePayload,
            ),
            ReadStep::Ready(Err(_)) => handler.detached(
                fed,
                Feed::Error(PayloadError::EncodingCorrupted),
            ),
        }
    }

    /// The body is read and decoded only while there is one to be fed.
    pub open spec fn inv(self) -> bool {
        self.stage is Paused || self.stage is Calling || self.payload
    }

    /// A handler about to poll its service, which has `payload` to be fed or not.
    pub fn new(payload: bool) -> (handler: Self)
        ensures
            handler.payload == payload,
            !handler.reader.read_some,
            handler.stage is Calling,
    {
        DispatchServiceHandler {
            payload,
            reader: DispatchReader::new(),
            stage: HandlerStage::Calling,
        }
    }

    /// Starts a poll.
    pub fn poll(&mut self) -> (step: HandlerStep)
        ensures
            *final(self) == (DispatchServiceHandler { stage: HandlerStage::Calling, ..*old(self) }),
            step is PollService,
    {
        self.stage = HandlerStage::Calling;
        HandlerStep::PollService
    }

    /// Takes in that the service is pending.
    pub fn poll_pending<T: Protocol>(&mut self) -> (step: HandlerStep)
        ensures
            (Handled::<T> { handler: *final(self), feed: None, step }) == old(self).after_pending::<
                T,
            >(),
    {
        if self.payload {
            self.stage = HandlerStage::Asking;
            HandlerStep::NeedRead
        } else {
            self.stage = HandlerStage::Paused;
            HandlerStep::Pending
        }
    }

    /// Takes in what the payload channel wants.
    pub fn poll_status<T: Protocol>(&mut self, status: PayloadStatus) -> (step: HandlerStep)
        ensures
            (Handled::<T> { handler: *final(self), feed: None, step }) == old(self).after_status::<
                T,
            >(status),
    {
        match status {
            PayloadStatus::Read => {
                self.stage = HandlerStage::Decoding { fed: false };
                HandlerStep::DecodePayload
            },
            PayloadStatus::Pause => {
                self.stage = HandlerStage::Paused;
                HandlerStep::Pending
            },
            PayloadStatus::Dropped => {
                self.payload = false;
                self.stage = HandlerStage::Paused;
                HandlerStep::Pending
            },
        }
    }

    /// Gives the request body up.
    fn detach(&mut self, fed: bool) -> (step: HandlerStep)
        ensures
            !final(self).payload,
            final(self).reader == old(self).reader,
            fed ==> final(self).stage is Calling && step is PollService,
            !fed ==> final(self).stage is Paused && step is Pending,
    {
        self.payload = false;
        if fed {
            self.stage = HandlerStage::Calling;
            HandlerStep::PollService
        } else {
            self.stage = HandlerStage::Paused;
            HandlerStep::Pending
        }
    }

    /// Takes in what was decoded of the request body, which used up the first
    /// `consumed` bytes of the buffer. Before a read, room is made for what it brings.
    pub fn poll_item<T: Protocol>(
        &mut self,
        fed: bool,
        read_buf: &mut BytesMut,
        consumed: usize,
        item: Result<Option<PayloadItem<T::Chunk>>, T::ParseError>,
    ) -> (out: (Option<Feed<T::Chunk>>, HandlerStep))
        requires
            consumed <= contents(*old(read_buf)).len(),
            contents(*old(read_buf)).len() + HW_BUFFER_SIZE <= buffer_limit(),
        ensures
            contents(*final(read_buf)) == contents(*old(read_buf)).skip(consumed as int),
            (Handled::<T> { handler: *final(self), feed: out.0, step: out.1 }).realizes(
                old(self).after_item::<T>(fed, item),
            ),
            out.1 matches HandlerStep::Read { room } ==> final(read_buf).roomy(room),
    {
        advance(read_buf, consumed);
        match item {
            Ok(Some(PayloadItem::Chunk(chunk))) => {
                self.stage = HandlerStage::Decoding { fed: true };
                (Some(Feed::Data(chunk)), HandlerStep::DecodePayload)
            },
            Ok(Some(PayloadItem::Eof)) => (Some(Feed::Eof), self.detach(fed)),
            Ok(None) => {
                self.stage = HandlerStage::Reading { fed };
                (None, HandlerStep::Read { room: read_buf.grow() })
            },
            Err(_) => (
                Some(Feed::Error(PayloadError::EncodingCorrupted)),
                self.detach(fed),
            ),
        }
    }

    /// Takes in what a read of the transport gave.
    pub fn poll_read<T: Protocol>(
        &mut self,
        fed: bool,
        read_buf: &mut BytesMut,
        max_buffer_size: usize,
        io: Poll<Result<&[u8], T::IoError>>,
    ) -> (out: (Option<Feed<T::Chunk>>, HandlerStep))
        requires
            contents(*old(read_buf)).len() + received(io).len() + HW_BUFFER_SIZE
                <= buffer_limit(),
        ensures
            contents(*final(read_buf)) == contents(*old(read_buf)) + received(io),
            (Handled::<T> { handler: *final(self), feed: out.0, step: out.1 }).realizes(
                old(self).after_read::<T>(
                    fed,
                    contents(*final(read_buf)).len(),
                    max_buffer_size,
                    io,
                ),
            ),
            out.1 matches HandlerStep::Read { room } ==> final(read_buf).roomy(room),
            io is Pending ==> *final(read_buf) == *old(read_buf),
    {
        match self.reader.poll(read_buf, max_buffer_size, io) {
            ReadStep::Again { room } => {
                self.stage = HandlerStage::Reading { fed };
                (None, HandlerStep::Read { room })
            },
            ReadStep::Pending => {
                self.stage = HandlerStage::Paused;
                (None, HandlerStep::Pending)
            },
            ReadStep::Ready(Ok(_)) => {
                self.stage = HandlerStage::Decoding { fed };
                (None, HandlerStep::DecodePayload)
            },
            ReadStep::Ready(Err(_)) => (
                Some(Feed::Error(PayloadError::EncodingCorrupted)),
                self.detach(fed),
            ),
        }
    }
}

} // verus!
