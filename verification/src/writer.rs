//! Sending what is buffered, and a response body behind it, to the transport.

use crate::buffer::{
    advance, buffer_limit, contents, grows, ready_to_fill, ReadWriteBuf, HW_BUFFER_SIZE,
};
use crate::types::{DispatchError, IoErrorKind, IoFailure, Poll, Protocol};
use bytes::BytesMut;
use vstd::prelude::*;

verus! {

/// How far a writer is.
#[derive(Clone, Copy, Debug, PartialEq, Eq)]
pub enum WriterStage {
    /// It is not being polled.
    Paused,
    /// The body is asked for its next chunk.
    Filling,
    /// A chunk of the body is encoded, or, behind the last one, the body's end.
    Encoding { last: bool },
    /// The buffer is written out, of which the first `written` bytes are gone.
    Flushing { written: usize },
}

/// Fills the buffer from a response body and writes it out, until the body is
/// over and the buffer is empty.
#[derive(Clone, Copy, Debug, PartialEq, Eq)]
pub struct DispatchWriter {
    /// Whether there is a body that is not over yet.
    pub payload: bool,
    pub stage: WriterStage,
}

/// What a writer asks for.
pub enum WriteStep<T: Protocol> {
    /// The next chunk of the body.
    PollBody,
    /// This chunk encoded, or the end of the body.
    EncodeChunk(Option<T::Chunk>),
    /// The bytes not sent yet offered to the transport.
    Write,
    /// Nothing until the body or the transport is ready.
    Pending,
    /// Nothing more.
    Ready(Result<(), DispatchError<T>>),
}

/// What a poll leaves behind it: the writer, the buffer and what to do next.
pub struct Written<T: Protocol> {
    pub writer: DispatchWriter,
    pub write_buf: Seq<u8>,
    pub step: WriteStep<T>,
}

impl DispatchWriter {
    /// The end of a poll that leaves `unsent` in the buffer. The writer is done only
    /// when that is nothing and no body is left.
    pub open spec fn settled<T: Protocol>(payload: bool, unsent: Seq<u8>) -> Written<T> {
        Written {
            writer: DispatchWriter { payload, stage: WriterStage::Paused },
            write_buf: unsent,
            step: if !payload && unsent.len() == 0 {
                WriteStep::Ready(Ok(()))
            } else {
                WriteStep::Pending
            },
        }
    }

    /// Writing goes on as long as anything is left to write.
    pub open spec fn flushing<T: Protocol>(
        payload: bool,
        write_buf: Seq<u8>,
        written: int,
    ) -> Written<T> {
        if written < write_buf.len() {
            Written {
                writer: DispatchWriter {
                    payload,
                    stage: WriterStage::Flushing { written: written as usize },
                },
                write_buf,
                step: WriteStep::Write,
            }
        } else {
            Self::settled(payload, write_buf.skip(written))
        }
    }

    /// A body is asked for more while less than `HW_BUFFER_SIZE` is buffered; then
    /// the buffer is written out.
    pub open spec fn filling<T: Protocol>(payload: bool, write_buf: Seq<u8>) -> Written<T> {
        if payload && write_buf.len() < HW_BUFFER_SIZE {
            Written {
                writer: DispatchWriter { payload, stage: WriterStage::Filling },
                write_buf,
                step: WriteStep::PollBody,
            }
        } else {
            Self::flushing(payload, write_buf, 0)
        }
    }

    /// The writer stays as it is and ends with an error.
    pub open spec fn failed<T: Protocol>(
        self,
        write_buf: Seq<u8>,
        error: DispatchError<T>,
    ) -> Written<T> {
        Written { writer: self, write_buf, step: WriteStep::Ready(Err(error)) }
    }

    /// What the next chunk of the body leads to.
    pub open spec fn after_body<T: Protocol>(
        self,
        write_buf: Seq<u8>,
        item: Poll<Option<Result<T::Chunk, T::ServiceError>>>,
    ) -> Written<T> {
        match item {
            Poll::Pending => Self::flushing(self.payload, write_buf, 0),
            Poll::Ready(Some(Ok(chunk))) => Written {
                writer: DispatchWriter { stage: WriterStage::Encoding { last: false }, ..self },
                write_buf,
                step: WriteStep::EncodeChunk(Some(chunk)),
            },
            Poll::Ready(None) => Written {
                writer: DispatchWriter { stage: WriterStage::Encoding { last: true }, ..self },
                write_buf,
                step: WriteStep::EncodeChunk(None),
            },
            Poll::Ready(Some(Err(error))) => self.failed(write_buf, DispatchError::Service(error)),
        }
    }

    /// What an encoded chunk, or the encoded end of the body, leads to.
    pub open spec fn after_encoding<T: Protocol>(
        self,
        last: bool,
        write_buf: Seq<u8>,
        encoded: Result<&[u8], T::IoError>,
    ) -> Written<T> {
        match encoded {
            Ok(bytes) => if last {
                Self::flushing(false, write_buf + bytes@, 0)
            } else {
                Self::filling(self.payload, write_buf + bytes@)
            },
            Err(error) => self.failed(write_buf, DispatchError::Io(IoFailure::Reported(error))),
        }
    }

    /// What a write leads to, where `written` bytes were written before it.
    pub open spec fn after_write<T: Protocol>(
        self,
        written: usize,
        write_buf: Seq<u8>,
        io: Poll<Result<usize, T::IoError>>,
    ) -> Written<T> {
        match io {
            Poll::Pending => Self::settled(self.payload, write_buf.skip(written as int)),
            Poll::Ready(Ok(count)) => if count == 0 {
                self.failed(
                    write_buf,
                    DispatchError::Io(IoFailure::Found(IoErrorKind::WriteZero)),
                )
            } else {
                Self::flushing(self.payload, write_buf, written + count)
            },
            Poll::Ready(Err(error)) => self.failed(
                write_buf,
                DispatchError::Io(IoFailure::Reported(error)),
            ),
        }
    }

    /// Whether this is a stage that a writer over a buffer of `held` bytes can be at.
    pub open spec fn inv(self, held: nat) -> bool {
        match self.stage {
            WriterStage::Paused => true,
            WriterStage::Filling => self.payload && held < HW_BUFFER_SIZE,
            WriterStage::Encoding { .. } => self.payload,
            WriterStage::Flushing { written } => written < held,
        }
    }

    /// Starts a poll. Before the body is asked for more, room is made for that.
    pub fn poll<T: Protocol>(&mut self, write_buf: &mut BytesMut) -> (step: WriteStep<T>)
        ensures
            (Written { writer: *final(self), write_buf: contents(*final(write_buf)), step })
                == Self::filling::<T>(old(self).payload, contents(*old(write_buf))),
            step is PollBody ==> exists|room: usize| #[trigger]
                grows(*old(write_buf), *final(write_buf), room),
            step is PollBody ==> ready_to_fill(*final(write_buf)),
    {
        if self.payload && write_buf.len() < HW_BUFFER_SIZE {
            let room: usize = write_buf.grow();
            assert(grows(*old(write_buf), *write_buf, room));
            self.stage = WriterStage::Filling;
            WriteStep::PollBody
        } else {
            self.flush(write_buf, 0)
        }
    }

    /// Goes on writing where `written` bytes are out already.
    fn flush<T: Protocol>(&mut self, write_buf: &mut BytesMut, written: usize) -> (step: WriteStep<
        T,
    >)
        requires
            written <= contents(*old(write_buf)).len(),
        ensures
            (Written { writer: *final(self), write_buf: contents(*final(write_buf)), step })
                == Self::flushing::<T>(
                old(self).payload,
                contents(*old(write_buf)),
                written as int,
            ),
    {
        if written < write_buf.len() {
            self.stage = WriterStage::Flushing { written };
            WriteStep::Write
        } else {
            self.settle(write_buf, written)
        }
    }

    /// Ends a poll in which `written` bytes went out.
    fn settle<T: Protocol>(&mut self, write_buf: &mut BytesMut, written: usize) -> (step: WriteStep<
        T,
    >)
        requires
            written <= contents(*old(write_buf)).len(),
        ensures
            (Written { writer: *final(self), write_buf: contents(*final(write_buf)), step })
                == Self::settled::<T>(
                old(self).payload,
                contents(*old(write_buf)).skip(written as int),
            ),
    {
        if written == write_buf.len() {
            write_buf.clear();
        } else {
            advance(write_buf, written);
        }
        assert(contents(*write_buf) =~= contents(*old(write_buf)).skip(written as int));
        self.stage = WriterStage::Paused;
        if !self.payload && write_buf.len() == 0 {
            WriteStep::Ready(Ok(()))
        } else {
            WriteStep::Pending
        }
    }

    /// Takes in what the body gave.
    pub fn poll_body<T: Protocol>(
        &mut self,
        write_buf: &mut BytesMut,
        item: Poll<Option<Result<T::Chunk, T::ServiceError>>>,
    ) -> (step: WriteStep<T>)
        ensures
            (Written { writer: *final(self), write_buf: contents(*final(write_buf)), step })
                == old(self).after_body::<T>(contents(*old(write_buf)), item),
    {
        match item {
            Poll::Pending => self.flush(write_buf, 0),
            Poll::Ready(Some(Ok(chunk))) => {
                self.stage = WriterStage::Encoding { last: false };
                WriteStep::EncodeChunk(Some(chunk))
            },
            Poll::Ready(None) => {
                self.stage = WriterStage::Encoding { last: true };
                WriteStep::EncodeChunk(None)
            },
            Poll::Ready(Some(Err(error))) => WriteStep::Ready(Err(DispatchError::Service(error))),
        }
    }

    /// Takes in what the encoder made of a chunk, or, behind the `last` one, of the
    /// end of the body.
    pub fn poll_encoded<T: Protocol>(
        &mut self,
        last: bool,
        write_buf: &mut BytesMut,
        encoded: Result<&[u8], T::IoError>,
    ) -> (step: WriteStep<T>)
        requires
            encoded matches Ok(bytes) ==> contents(*old(write_buf)).len() + bytes@.len()
                <= buffer_limit(),
        ensures
            (Written { writer: *final(self), write_buf: contents(*final(write_buf)), step })
                == old(self).after_encoding::<T>(last, contents(*old(write_buf)), encoded),
            step is PollBody ==> ready_to_fill(*final(write_buf)),
    {
        match encoded {
            Ok(bytes) => {
                write_buf.extend_from_slice(bytes);
                if last {
                    self.payload = false;
                    self.flush(write_buf, 0)
                } else {
                    self.poll(write_buf)
                }
            },
            Err(error) => WriteStep::Ready(Err(DispatchError::Io(IoFailure::Reported(error)))),
        }
    }

    /// Takes in how much of the bytes not sent yet the transport took.
    pub fn poll_write<T: Protocol>(
        &mut self,
        written: usize,
        write_buf: &mut BytesMut,
        io: Poll<Result<usize, T::IoError>>,
    ) -> (step: WriteStep<T>)
        requires
            written <= contents(*old(write_buf)).len(),
            io matches Poll::Ready(Ok(count)) ==> written + count <= contents(
                *old(write_buf),
            ).len(),
        ensures
            (Written { writer: *final(self), write_buf: contents(*final(write_buf)), step })
                == old(self).after_write::<T>(written, contents(*old(write_buf)), io),
    {
        // No more is held than a `usize` counts, so neither can more be written.
        let held: usize = write_buf.len();
        match io {
            Poll::Pending => self.settle(write_buf, written),
            Poll::Ready(Ok(count)) => if count == 0 {
                WriteStep::Ready(
                    Err(DispatchError::Io(IoFailure::Found(IoErrorKind::WriteZero))),
                )
            } else {
                assert(written + count <= held);
                self.flush(write_buf, written + count)
            },
            Poll::Ready(Err(error)) => WriteStep::Ready(
                Err(DispatchError::Io(IoFailure::Reported(error))),
            ),
        }
    }
}

} // verus!
