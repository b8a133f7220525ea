//! Reading from the transport into a buffer.

use crate::buffer::{buffer_limit, contents, ReadWriteBuf, HW_BUFFER_SIZE, LW_BUFFER_SIZE};
use crate::types::{IoErrorKind, IoFailure, Poll};
use bytes::BytesMut;
use vstd::prelude::*;

verus! {

/// Whether all there is to read has been read.
#[derive(Clone, Copy, Debug, PartialEq, Eq)]
pub enum DispatchReaderState {
    Partial,
    All,
}

/// What is to happen after a read.
pub enum ReadStep<E> {
    /// Another read, for which there is this much room in the buffer.
    Again { room: usize },
    /// Nothing until the transport is ready.
    Pending,
    /// Reading is over.
    Ready(Result<DispatchReaderState, IoFailure<E>>),
}

impl<E> ReadStep<E> {
    /// Whether this is the step `plan`. What room there is rests with the allocator: a
    /// plan names the least there must be.
    pub open spec fn realizes(self, plan: Self) -> bool {
        match self {
            ReadStep::Again { room } => plan matches ReadStep::Again { room: least } && room >= least,
            _ => self == plan,
        }
    }
}

/// Reads until the transport has nothing more to give for now.
#[derive(Clone, Copy, Debug, PartialEq, Eq)]
pub struct DispatchReader {
    /// Whether a read brought anything yet.
    pub read_some: bool,
}

/// The bytes that a read brought.
pub open spec fn received<E>(io: Poll<Result<&[u8], E>>) -> Seq<u8> {
    match io {
        Poll::Ready(Ok(data)) => data@,
        _ => Seq::empty(),
    }
}

impl DispatchReader {
    /// What a read leads to, where `held` bytes are buffered once what it brought
    /// is among them.
    pub open spec fn after<E>(
        self,
        held: nat,
        max_buffer_size: usize,
        io: Poll<Result<&[u8], E>>,
    ) -> ReadStep<E> {
        match io {
            Poll::Pending => if self.read_some {
                ReadStep::Ready(Ok(DispatchReaderState::Partial))
            } else {
                ReadStep::Pending
            },
            Poll::Ready(Err(error)) => ReadStep::Ready(Err(IoFailure::Reported(error))),
            Poll::Ready(Ok(data)) => if data@.len() == 0 {
                ReadStep::Ready(Ok(DispatchReaderState::All))
            } else if held > max_buffer_size {
                ReadStep::Ready(Err(IoFailure::Found(IoErrorKind::InvalidData)))
            } else {
                ReadStep::Again { room: LW_BUFFER_SIZE }
            },
        }
    }

    /// A reader that has read nothing.
    pub fn new() -> (reader: Self)
        ensures
            !reader.read_some,
    {
        DispatchReader { read_some: false }
    }

    /// Takes in what a read of the transport gave: buffers the bytes it brought and
    /// says how to go on. Before another read, room is made for what it brings.
    pub fn poll<E>(
        &mut self,
        read_buf: &mut BytesMut,
        max_buffer_size: usize,
        io: Poll<Result<&[u8], E>>,
    ) -> (step: ReadStep<E>)
        requires
            contents(*old(read_buf)).len() + received(io).len() + HW_BUFFER_SIZE
                <= buffer_limit(),
        ensures
            contents(*final(read_buf)) == contents(*old(read_buf)) + received(io),
            step.realizes(
                old(self).after(contents(*final(read_buf)).len(), max_buffer_size, io),
            ),
            final(self).read_some == (old(self).read_some || step is Again),
            step matches ReadStep::Again { room } ==> final(read_buf).roomy(room),
            io is Pending ==> *final(read_buf) == *old(read_buf),
    {
        proof {
            assert(contents(*read_buf) + Seq::<u8>::empty() =~= contents(*read_buf));
        }
        match io {
            Poll::Pending => if self.read_some {
                ReadStep::Ready(Ok(DispatchReaderState::Partial))
            } else {
                ReadStep::Pending
            },
            Poll::Ready(Err(error)) => ReadStep::Ready(Err(IoFailure::Reported(error))),
            Poll::Ready(Ok(data)) => {
                read_buf.extend_from_slice(data);
                if data.len() == 0 {
                    ReadStep::Ready(Ok(DispatchReaderState::All))
                } else if read_buf.len() > max_buffer_size {
                    ReadStep::Ready(Err(IoFailure::Found(IoErrorKind::InvalidData)))
                } else {
                    self.read_some = true;
                    ReadStep::Again { room: read_buf.grow() }
                }
            },
        }
    }
}

} // verus!
