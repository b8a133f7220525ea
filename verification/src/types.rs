//! What passes between the dispatcher and the code that does its I/O.

use vstd::prelude::*;

verus! {

/// The types that a dispatcher carries without looking inside.
pub trait Protocol: Sized {
    /// The address of a peer.
    type Addr: Copy;

    /// What is known of a connection from the moment it was made.
    type ConnectData;

    /// A request apart from what the dispatcher reads of it.
    type Message;

    /// A response head.
    type Response;

    /// A piece of a request or response body.
    type Chunk;

    /// What the transport or the encoder fails with.
    type IoError;

    /// What the expect handler, the service or a response body fails with.
    type ServiceError;

    /// What the decoder fails with.
    type ParseError;
}

/// Whether an asynchronous operation is done.
pub enum Poll<V> {
    Pending,
    Ready(V),
}

/// A request, with what the dispatcher reads and sets of it.
pub struct Request<T: Protocol> {
    pub message: T::Message,
    /// Whether the client holds its body back until it is asked for it.
    pub expect: bool,
    /// Who sent it.
    pub peer_addr: Option<T::Addr>,
    /// What came with the connection.
    pub on_connect_data: Option<T::ConnectData>,
    /// Whether its body reaches the handler through a payload channel.
    pub has_payload: bool,
}

/// How the body of a decoded request is framed.
#[derive(Clone, Copy, Debug, PartialEq, Eq)]
pub enum PayloadType {
    /// There is none.
    Absent,
    /// It ends.
    Payload,
    /// It runs on as long as the connection does.
    Stream,
}

/// How much body a response has.
#[derive(Clone, Copy, Debug, PartialEq, Eq)]
pub enum BodySize {
    /// There is none, nor could there be.
    Absent,
    /// There is none.
    Empty,
    /// As many bytes as this.
    Sized(u64),
    /// As much as comes.
    Stream,
}

/// What the reading end of a payload channel wants.
#[derive(Clone, Copy, Debug, PartialEq, Eq)]
pub enum PayloadStatus {
    Read,
    Pause,
    Dropped,
}

/// What is decoded of a request body at a time.
pub enum PayloadItem<C> {
    Chunk(C),
    Eof,
}

/// Why a request body ends before its time.
#[derive(Clone, Copy, Debug, PartialEq, Eq)]
pub enum PayloadError {
    Incomplete,
    EncodingCorrupted,
}

/// What is put into a payload channel.
pub enum Feed<C> {
    Data(C),
    Eof,
    Error(PayloadError),
}

/// The kinds of I/O error that the dispatcher itself finds.
#[derive(Clone, Copy, Debug, PartialEq, Eq)]
pub enum IoErrorKind {
    InvalidData,
    WriteZero,
}

/// An I/O error.
pub enum IoFailure<E> {
    /// One that the transport or the encoder reported.
    Reported(E),
    /// One that the dispatcher found.
    Found(IoErrorKind),
}

impl IoErrorKind {
    /// What an error of this kind says.
    pub fn message(self) -> (text: &'static str)
        ensures
            self is InvalidData ==> text@ == "buffer over flow"@,
            self is WriteZero ==> text@ == "failed to write frame to transport"@,
    {
        match self {
            IoErrorKind::InvalidData => "buffer over flow",
            IoErrorKind::WriteZero => "failed to write frame to transport",
        }
    }
}

/// Why a dispatcher gave up.
pub enum DispatchError<T: Protocol> {
    Io(IoFailure<T::IoError>),
    Service(T::ServiceError),
    Upgrade,
    Parse(T::ParseError),
}

} // verus!
