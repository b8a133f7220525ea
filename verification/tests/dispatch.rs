use bytes::BytesMut;
use h1_dispatcher::buffer::{HW_BUFFER_SIZE, LW_BUFFER_SIZE};
use h1_dispatcher::dispatcher::{h1_dispatch, Dispatcher};
use h1_dispatcher::model::{Action, Event, Output, Phase};
use h1_dispatcher::reader::{DispatchReader, DispatchReaderState, ReadStep};
use h1_dispatcher::service::{DispatchServiceHandler, HandlerStep};
use h1_dispatcher::types::{
    BodySize, DispatchError, Feed, IoErrorKind, IoFailure, PayloadError, PayloadItem,
    PayloadStatus, PayloadType, Poll, Protocol, Request,
};
use h1_dispatcher::writer::{DispatchWriter, WriteStep, WriterStage};

struct Http;

#[derive(Clone, Debug, PartialEq, Eq)]
struct Head {
    path: String,
    length: usize,
}

#[derive(Clone, Debug, PartialEq, Eq)]
struct Reply {
    status: &'static str,
    body: Vec<Vec<u8>>,
}

impl Protocol for Http {
    type Addr = u16;
    type ConnectData = &'static str;
    type Message = Head;
    type Response = Reply;
    type Chunk = Vec<u8>;
    type IoError = &'static str;
    type ServiceError = &'static str;
    type ParseError = &'static str;
}

/// An event that owns its bytes.
enum Told {
    Read(Vec<u8>),
    Head(Vec<u8>, bool),
    Chunk(Vec<u8>),
    Other(Event<'static, Http>),
}

#[derive(Clone, Copy, PartialEq, Eq)]
enum Kind {
    Plain,
    EchoPath,
    EchoPayload,
    Fail,
    Big,
}

/// A connection whose other end is in memory.
struct Conn {
    h1: Dispatcher<Http>,
    kind: Kind,
    keep_alive: bool,
    max_buffer_size: usize,
    // the transport
    input: Vec<u8>,
    input_over: bool,
    read_error: bool,
    output: Vec<u8>,
    takes: Vec<usize>,
    take_all: bool,
    write_error: bool,
    shut: bool,
    // the request
    status: PayloadStatus,
    left: usize,
    corrupt: bool,
    payload: Vec<u8>,
    payload_over: bool,
    payload_error: Option<PayloadError>,
    requests: Vec<(String, Option<u16>, Option<&'static str>, bool)>,
    // the handlers
    upgraded: Option<String>,
    upgrade_result: Poll<Result<(), &'static str>>,
    expect_error: bool,
    path: String,
    // the response
    body: Vec<Vec<u8>>,
    body_pending: bool,
    body_error: bool,
    head_error: bool,
    chunk_error: bool,
    largest_write: usize,
}

fn conn(kind: Kind, upgradeable: bool) -> Conn {
    Conn {
        h1: Dispatcher::new(Some(8080), Some("tls"), upgradeable, 131072),
        kind,
        keep_alive: false,
        max_buffer_size: 131072,
        input: Vec::new(),
        input_over: false,
        read_error: false,
        output: Vec::new(),
        takes: Vec::new(),
        take_all: true,
        write_error: false,
        shut: false,
        status: PayloadStatus::Read,
        left: 0,
        corrupt: false,
        payload: Vec::new(),
        payload_over: false,
        payload_error: None,
        requests: Vec::new(),
        upgraded: None,
        upgrade_result: Poll::Ready(Ok(())),
        expect_error: false,
        path: String::new(),
        body: Vec::new(),
        body_pending: false,
        body_error: false,
        head_error: false,
        chunk_error: false,
        largest_write: 0,
    }
}

fn parse(buf: &[u8]) -> (usize, Result<Option<(Request<Http>, PayloadType)>, &'static str>) {
    let text = String::from_utf8(buf.to_vec()).unwrap();
    let end = match text.find("\r\n\r\n") {
        Some(end) => end,
        None => return (0, Ok(None)),
    };
    let mut lines = text[..end].split("\r\n");
    let line: Vec<&str> = lines.next().unwrap().split(' ').collect();
    if line.len() != 3 || line[2] != "HTTP/1.1" {
        return (0, Err("version"));
    }
    let mut length = 0;
    let mut expect = false;
    let mut upgrade = false;
    for header in lines {
        match header {
            "Expect: 100-continue" => expect = true,
            "Connection: Upgrade" => upgrade = true,
            _ => {
                if let Some(value) = header.strip_prefix("Content-Length: ") {
                    length = value.parse().unwrap();
                }
            }
        }
    }
    let request = Request {
        message: Head { path: line[1].to_string(), length },
        expect,
        peer_addr: None,
        on_connect_data: None,
        has_payload: false,
    };
    let payload_type = if upgrade {
        PayloadType::Stream
    } else if length > 0 {
        PayloadType::Payload
    } else {
        PayloadType::Absent
    };
    (end + 4, Ok(Some((request, payload_type))))
}

impl Conn {
    fn tell(&mut self, told: Told) -> Output<Http> {
        match told {
            Told::Read(bytes) => h1_dispatch(&mut self.h1, Event::Read(Poll::Ready(Ok(&bytes)))),
            Told::Head(bytes, keep_alive) => {
                h1_dispatch(&mut self.h1, Event::HeadEncoded(Ok((&bytes, keep_alive))))
            }
            Told::Chunk(bytes) => h1_dispatch(&mut self.h1, Event::ChunkEncoded(Ok(&bytes))),
            Told::Other(event) => h1_dispatch(&mut self.h1, event),
        }
    }

    fn read(&mut self, room: usize) -> Told {
        assert!(room >= LW_BUFFER_SIZE);
        if self.read_error {
            Told::Other(Event::Read(Poll::Ready(Err("reset"))))
        } else if self.input.is_empty() {
            if self.input_over {
                Told::Read(Vec::new())
            } else {
                Told::Other(Event::Read(Poll::Pending))
            }
        } else {
            let count = room.min(self.input.len());
            Told::Read(self.input.drain(..count).collect())
        }
    }

    fn write(&mut self) -> Event<'static, Http> {
        let unsent = self.h1.unsent().to_vec();
        assert!(!unsent.is_empty());
        self.largest_write = self.largest_write.max(unsent.len());
        if self.write_error {
            return Event::Written(Poll::Ready(Err("broken pipe")));
        }
        let count = if !self.takes.is_empty() {
            self.takes.remove(0).min(unsent.len())
        } else if self.take_all {
            unsent.len()
        } else {
            return Event::Written(Poll::Pending);
        };
        self.output.extend_from_slice(&unsent[..count]);
        Event::Written(Poll::Ready(Ok(count)))
    }

    fn served(&mut self) -> Poll<Result<(Reply, BodySize), &'static str>> {
        let body = match self.kind {
            Kind::Plain => Vec::new(),
            Kind::EchoPath => vec![self.path.as_bytes().to_vec()],
            Kind::EchoPayload => {
                if !self.payload_over && self.payload_error.is_none() {
                    return Poll::Pending;
                }
                vec![self.payload.clone()]
            }
            Kind::Fail => return Poll::Ready(Err("out of order")),
            Kind::Big => vec![vec![b'x'; 5000]; 4],
        };
        let length: usize = body.iter().map(|chunk| chunk.len()).sum();
        let size = if length == 0 {
            BodySize::Empty
        } else {
            BodySize::Sized(length as u64)
        };
        Poll::Ready(Ok((Reply { status: "200 OK", body }, size)))
    }

    fn call(&mut self, request: Request<Http>) {
        self.requests.push((
            request.message.path.clone(),
            request.peer_addr,
            request.on_connect_data,
            request.has_payload,
        ));
        self.path = request.message.path;
        self.payload = Vec::new();
        self.payload_over = false;
        self.payload_error = None;
    }

    /// Runs the dispatcher until it has to wait or is done.
    fn poll(&mut self) -> Poll<Result<(), DispatchError<Http>>> {
        let mut told = Told::Other(Event::Wake);
        loop {
            let output = self.tell(told);
            match output.feed {
                Some(Feed::Data(chunk)) => self.payload.extend_from_slice(&chunk),
                Some(Feed::Eof) => self.payload_over = true,
                Some(Feed::Error(error)) => self.payload_error = Some(error),
                None => {}
            }
            told = match output.action {
                Action::Wait => return Poll::Pending,
                Action::Done(result) => return Poll::Ready(result),
                Action::OutOfTurn => panic!("out of turn"),
                Action::Read { room } => self.read(room),
                Action::Decode => {
                    let (consumed, message) = parse(self.h1.read_buf());
                    if let Ok(Some((request, _))) = &message {
                        self.left = request.message.length;
                    }
                    Told::Other(Event::Decoded { consumed, message })
                }
                Action::CallUpgrade(request) => {
                    self.upgraded = Some(request.message.path);
                    Told::Other(Event::Upgraded(match self.upgrade_result {
                        Poll::Pending => Poll::Pending,
                        Poll::Ready(result) => Poll::Ready(result),
                    }))
                }
                Action::PollUpgrade => Told::Other(Event::Upgraded(Poll::Ready(Ok(())))),
                Action::CallExpect(request) => Told::Other(Event::Expected(Poll::Ready(
                    if self.expect_error { Err("expectation") } else { Ok(request) },
                ))),
                Action::PollExpect => unreachable!(),
                Action::CallService(request) => {
                    self.call(request);
                    Told::Other(Event::Served(self.served()))
                }
                Action::PollService => Told::Other(Event::Served(self.served())),
                Action::RenderError(_) => Told::Other(Event::Rendered(
                    Reply { status: "500 Internal Server Error", body: vec![b"oops".to_vec()] },
                    BodySize::Sized(4),
                )),
                Action::NeedRead => Told::Other(Event::Status(self.status)),
                Action::DecodePayload => {
                    let held = self.h1.read_buf().to_vec();
                    let count = held.len().min(self.left);
                    let item = if self.corrupt {
                        Err("chunk size")
                    } else if self.left == 0 {
                        Ok(Some(PayloadItem::Eof))
                    } else if count == 0 {
                        Ok(None)
                    } else {
                        Ok(Some(PayloadItem::Chunk(held[..count].to_vec())))
                    };
                    let consumed = if self.corrupt { 0 } else { count };
                    self.left -= consumed;
                    Told::Other(Event::PayloadDecoded { consumed, item })
                }
                Action::EncodeHead(reply, size) => {
                    if self.head_error {
                        Told::Other(Event::HeadEncoded(Err("header")))
                    } else {
                        self.body = reply.body;
                        let length = match size {
                            BodySize::Sized(length) => length,
                            _ => 0,
                        };
                        let connection = if self.keep_alive { "keep-alive" } else { "close" };
                        let head = format!(
                            "HTTP/1.1 {}\r\ncontent-length: {}\r\nconnection: {}\r\n\
                             date: Thu, 01 Jan 1970 12:34:56 UTC\r\n\r\n",
                            reply.status, length, connection
                        );
                        Told::Head(head.into_bytes(), self.keep_alive)
                    }
                }
                Action::PollBody => Told::Other(Event::Body(if self.body_error {
                    Poll::Ready(Some(Err("body")))
                } else if self.body_pending {
                    Poll::Pending
                } else if self.body.is_empty() {
                    Poll::Ready(None)
                } else {
                    Poll::Ready(Some(Ok(self.body.remove(0))))
                })),
                Action::EncodeChunk(chunk) => {
                    if self.chunk_error {
                        Told::Other(Event::ChunkEncoded(Err("chunk")))
                    } else {
                        Told::Chunk(chunk.unwrap_or_default())
                    }
                }
                Action::Write => Told::Other(self.write()),
                Action::ShutDown => {
                    self.shut = true;
                    Told::Other(Event::ShutDown(Poll::Ready(Ok(()))))
                }
            };
        }
    }

    fn send(&mut self, text: &str) {
        self.input.extend_from_slice(text.as_bytes());
    }

    fn said(&self) -> String {
        String::from_utf8(self.output.clone()).unwrap()
    }
}

fn pending(poll: &Poll<Result<(), DispatchError<Http>>>) -> bool {
    matches!(poll, Poll::Pending)
}

fn done(poll: &Poll<Result<(), DispatchError<Http>>>) -> bool {
    matches!(poll, Poll::Ready(Ok(())))
}

const UPLOAD: &str = "POST /upload HTTP/1.1\r\n\
                      Content-Length: 5\r\n\
                      Expect: 100-continue\r\n\
                      \r\n";

const PLAIN_UPLOAD: &str = "POST /upload HTTP/1.1\r\nContent-Length: 5\r\n\r\n";

#[test]
fn test_req_parse_err() {
    let mut h1 = conn(Kind::Plain, false);
    h1.send("GET /test HTTP/1\r\n\r\n");
    match h1.poll() {
        Poll::Pending => panic!(),
        Poll::Ready(res) => assert!(matches!(res, Err(DispatchError::Parse("version")))),
    }
    assert_eq!(&h1.output[..26], b"HTTP/1.1 400 Bad Request\r\n");
    assert!(h1.shut);
    assert!(h1.requests.is_empty());
}

#[test]
fn test_expect() {
    let mut h1 = conn(Kind::EchoPayload, false);
    h1.send(UPLOAD);
    assert!(pending(&h1.poll()));
    assert!(!matches!(h1.h1.phase(), Phase::Upgrading));
    assert_eq!(h1.said(), "HTTP/1.1 100 Continue\r\n\r\n");

    h1.send("12345");
    assert!(done(&h1.poll()));
    assert_eq!(
        h1.said(),
        "\
        HTTP/1.1 100 Continue\r\n\
        \r\n\
        HTTP/1.1 200 OK\r\n\
        content-length: 5\r\n\
        connection: close\r\n\
        date: Thu, 01 Jan 1970 12:34:56 UTC\r\n\
        \r\n\
        12345\
        "
    );
    assert!(h1.shut);
}

#[test]
fn test_eager_expect() {
    let mut h1 = conn(Kind::EchoPath, false);
    h1.send(UPLOAD);
    assert!(done(&h1.poll()));
    assert!(!matches!(h1.h1.phase(), Phase::Upgrading));

    // The service does not want the body, so the response is whole though the body
    // never came.
    assert_eq!(
        h1.said(),
        "\
        HTTP/1.1 100 Continue\r\n\
        \r\n\
        HTTP/1.1 200 OK\r\n\
        content-length: 7\r\n\
        connection: close\r\n\
        date: Thu, 01 Jan 1970 12:34:56 UTC\r\n\
        \r\n\
        /upload\
        "
    );
}

#[test]
fn test_upgrade() {
    let mut h1 = conn(Kind::Plain, true);
    h1.send(
        "\
        GET /ws HTTP/1.1\r\n\
        Connection: Upgrade\r\n\
        Upgrade: websocket\r\n\
        \r\n\
        ",
    );
    assert!(done(&h1.poll()));
    assert_eq!(h1.upgraded, Some("/ws".to_string()));
    assert!(h1.requests.is_empty());
    assert!(h1.output.is_empty());
    assert!(!h1.shut);
}

#[test]
fn upgrade_takes_over_what_was_read() {
    let mut h1 = conn(Kind::Plain, true);
    h1.upgrade_result = Poll::Pending;
    h1.send("GET /ws HTTP/1.1\r\nConnection: Upgrade\r\n\r\nframe");
    assert!(pending(&h1.poll()));
    assert!(matches!(h1.h1.phase(), Phase::Upgrading));
    let parts = h1.h1.framed_parts();
    assert_eq!(&parts.read_buf[..], b"frame");
    assert!(parts.write_buf.is_empty());
    assert!(h1.h1.read_buf().is_empty());
    assert!(done(&h1.poll()));
}

#[test]
fn failed_upgrade_is_reported() {
    let mut h1 = conn(Kind::Plain, true);
    h1.upgrade_result = Poll::Ready(Err("refused"));
    h1.send("GET /ws HTTP/1.1\r\nConnection: Upgrade\r\n\r\n");
    assert!(matches!(h1.poll(), Poll::Ready(Err(DispatchError::Upgrade))));
}

#[test]
fn upgrade_without_handler_goes_to_the_service() {
    let mut h1 = conn(Kind::EchoPath, false);
    h1.send("GET /ws HTTP/1.1\r\nConnection: Upgrade\r\n\r\n");
    assert!(done(&h1.poll()));
    assert_eq!(h1.upgraded, None);
    assert_eq!(h1.requests, vec![("/ws".to_string(), Some(8080), Some("tls"), true)]);
}

#[test]
fn failed_expectation_ends_it() {
    let mut h1 = conn(Kind::Plain, false);
    h1.expect_error = true;
    h1.send(UPLOAD);
    assert!(matches!(h1.poll(), Poll::Ready(Err(DispatchError::Service("expectation")))));
    assert!(h1.output.is_empty());
    assert!(!h1.shut);
}

#[test]
fn requests_are_answered_in_turn() {
    let mut h1 = conn(Kind::EchoPath, false);
    h1.keep_alive = true;
    h1.send("GET /a HTTP/1.1\r\n\r\nGET /b HTTP/1.1\r\n\r\n");
    assert!(pending(&h1.poll()));
    // The second request was read along with the first, and is decoded once anything
    // more can be read.
    h1.input_over = true;
    assert!(done(&h1.poll()));
    let first = h1.said().find("/a").unwrap();
    assert!(h1.said()[first..].find("/b").is_some());
    assert_eq!(
        h1.requests,
        vec![
            ("/a".to_string(), Some(8080), Some("tls"), false),
            ("/b".to_string(), Some(8080), None, false),
        ]
    );
    assert!(h1.shut);
}

#[test]
fn request_comes_in_pieces() {
    let mut h1 = conn(Kind::EchoPath, false);
    h1.send("GET /a HT");
    assert!(pending(&h1.poll()));
    assert_eq!(h1.h1.read_buf(), b"GET /a HT");
    h1.send("TP/1.1\r\n\r\n");
    assert!(done(&h1.poll()));
    assert_eq!(h1.requests.len(), 1);
}

#[test]
fn closed_connection_ends_quietly() {
    let mut h1 = conn(Kind::Plain, false);
    h1.send("GET /");
    h1.input_over = true;
    assert!(done(&h1.poll()));
    assert!(h1.shut);
    assert!(h1.output.is_empty());
}

#[test]
fn failed_read_closes() {
    let mut h1 = conn(Kind::Plain, false);
    h1.read_error = true;
    assert!(done(&h1.poll()));
    assert!(h1.shut);
}

#[test]
fn endless_request_closes() {
    let mut h1 = conn(Kind::Plain, false);
    h1.input = vec![b'a'; h1.max_buffer_size + 1];
    assert!(done(&h1.poll()));
    assert!(h1.shut);
    assert_eq!(h1.h1.read_buf().len(), h1.max_buffer_size + 1);

    let mut h1 = conn(Kind::Plain, false);
    h1.input = vec![b'a'; h1.max_buffer_size];
    assert!(pending(&h1.poll()));
    assert!(!h1.shut);
}

#[test]
fn body_is_fed_in_order() {
    let mut h1 = conn(Kind::EchoPayload, false);
    h1.send(PLAIN_UPLOAD);
    h1.send("12");
    h1.status = PayloadStatus::Pause;
    assert!(pending(&h1.poll()));
    assert!(h1.payload.is_empty());
    h1.status = PayloadStatus::Read;
    assert!(pending(&h1.poll()));
    assert_eq!(h1.payload, b"12");
    h1.send("345");
    assert!(done(&h1.poll()));
    assert!(h1.payload_over);
    assert!(h1.said().ends_with("\r\n\r\n12345"));
}

#[test]
fn dropped_body_is_fed_no_more() {
    let mut h1 = conn(Kind::EchoPayload, false);
    h1.send(PLAIN_UPLOAD);
    h1.send("12345");
    h1.status = PayloadStatus::Dropped;
    assert!(pending(&h1.poll()));
    h1.status = PayloadStatus::Read;
    assert!(pending(&h1.poll()));
    assert!(h1.payload.is_empty());
    assert_eq!(h1.h1.read_buf(), b"12345");
}

#[test]
fn corrupt_body_is_reported_to_the_service() {
    let mut h1 = conn(Kind::EchoPayload, false);
    h1.send(PLAIN_UPLOAD);
    h1.corrupt = true;
    assert!(pending(&h1.poll()));
    assert_eq!(h1.payload_error, Some(PayloadError::EncodingCorrupted));
    assert!(done(&h1.poll()));

    let mut h1 = conn(Kind::EchoPayload, false);
    h1.send(PLAIN_UPLOAD);
    assert!(pending(&h1.poll()));
    h1.read_error = true;
    assert!(pending(&h1.poll()));
    assert_eq!(h1.payload_error, Some(PayloadError::EncodingCorrupted));
}

#[test]
fn service_error_is_answered() {
    let mut h1 = conn(Kind::Fail, false);
    h1.send("GET / HTTP/1.1\r\n\r\n");
    assert!(done(&h1.poll()));
    assert!(h1.said().starts_with("HTTP/1.1 500 Internal Server Error\r\n"));
    assert!(h1.said().ends_with("\r\n\r\noops"));
}

#[test]
fn head_that_cannot_be_encoded_ends_it() {
    let mut h1 = conn(Kind::EchoPath, false);
    h1.head_error = true;
    h1.send(PLAIN_UPLOAD);
    assert!(matches!(
        h1.poll(),
        Poll::Ready(Err(DispatchError::Io(IoFailure::Reported("header"))))
    ));
    assert_eq!(h1.payload_error, Some(PayloadError::Incomplete));

    let mut h1 = conn(Kind::EchoPath, false);
    h1.head_error = true;
    h1.send("GET / HTTP/1.1\r\n\r\n");
    assert!(matches!(h1.poll(), Poll::Ready(Err(DispatchError::Io(_)))));
    assert_eq!(h1.payload_error, None);
}

#[test]
fn response_goes_out_in_pieces() {
    let mut h1 = conn(Kind::Big, false);
    h1.takes = vec![10, 100];
    h1.take_all = false;
    h1.send("GET / HTTP/1.1\r\n\r\n");
    assert!(pending(&h1.poll()));
    assert_eq!(h1.output.len(), 110);
    h1.take_all = true;
    // What was taken made room for more of the body.
    let mut polls = 0;
    while pending(&h1.poll()) {
        polls += 1;
        assert!(polls < 10);
    }
    let head = h1.said().find("\r\n\r\n").unwrap() + 4;
    assert_eq!(h1.output.len(), head + 20000);
    assert!(h1.output[head..].iter().all(|byte| *byte == b'x'));
    assert!(h1.largest_write < HW_BUFFER_SIZE + 5000);
}

#[test]
fn slow_body_is_waited_for() {
    let mut h1 = conn(Kind::EchoPath, false);
    h1.body_pending = true;
    h1.send("GET /slow HTTP/1.1\r\n\r\n");
    assert!(pending(&h1.poll()));
    assert!(h1.said().ends_with("\r\n\r\n"));
    h1.body_pending = false;
    assert!(done(&h1.poll()));
    assert!(h1.said().ends_with("\r\n\r\n/slow"));
}

#[test]
fn failing_body_ends_it() {
    let mut h1 = conn(Kind::EchoPath, false);
    h1.body_error = true;
    h1.send("GET / HTTP/1.1\r\n\r\n");
    assert!(matches!(h1.poll(), Poll::Ready(Err(DispatchError::Service("body")))));

    let mut h1 = conn(Kind::EchoPath, false);
    h1.chunk_error = true;
    h1.send("GET / HTTP/1.1\r\n\r\n");
    assert!(matches!(
        h1.poll(),
        Poll::Ready(Err(DispatchError::Io(IoFailure::Reported("chunk"))))
    ));
}

#[test]
fn failing_transport_ends_it() {
    let mut h1 = conn(Kind::Plain, false);
    h1.takes = vec![0];
    h1.send("GET / HTTP/1.1\r\n\r\n");
    assert!(matches!(
        h1.poll(),
        Poll::Ready(Err(DispatchError::Io(IoFailure::Found(IoErrorKind::WriteZero))))
    ));

    let mut h1 = conn(Kind::Plain, false);
    h1.write_error = true;
    h1.send("GET / HTTP/1.1\r\n\r\n");
    assert!(matches!(
        h1.poll(),
        Poll::Ready(Err(DispatchError::Io(IoFailure::Reported("broken pipe"))))
    ));
    assert_eq!(IoErrorKind::WriteZero.message(), "failed to write frame to transport");
    assert_eq!(IoErrorKind::InvalidData.message(), "buffer over flow");
}

#[test]
fn shutdown_is_waited_for_and_cannot_fail() {
    let mut h1: Dispatcher<Http> = Dispatcher::new(None, None, false, 1024);
    let output = h1_dispatch(&mut h1, Event::Read(Poll::Ready(Ok(&[]))));
    assert!(matches!(output.action, Action::Decode));
    let output = h1_dispatch(&mut h1, Event::Decoded { consumed: 0, message: Ok(None) });
    assert!(matches!(output.action, Action::ShutDown));
    let output = h1_dispatch(&mut h1, Event::ShutDown(Poll::Pending));
    assert!(matches!(output.action, Action::Wait));
    let output = h1_dispatch(&mut h1, Event::Wake);
    assert!(matches!(output.action, Action::ShutDown));
    let output = h1_dispatch(&mut h1, Event::ShutDown(Poll::Ready(Err("reset"))));
    assert!(matches!(output.action, Action::Done(Ok(()))));
}

#[test]
fn what_is_not_waited_for_changes_nothing() {
    let mut h1: Dispatcher<Http> = Dispatcher::new(None, None, false, 1024);
    let output = h1_dispatch(&mut h1, Event::Status(PayloadStatus::Read));
    assert!(matches!(output.action, Action::OutOfTurn));
    assert!(output.feed.is_none());
    assert!(matches!(h1.phase(), Phase::Reading(reader) if !reader.read_some));
    let output = h1_dispatch(&mut h1, Event::Wake);
    assert!(matches!(output.action, Action::Read { room } if room >= LW_BUFFER_SIZE));
}

#[test]
fn connection_data_goes_to_one_request() {
    let mut h1: Dispatcher<Http> = Dispatcher::new(Some(1), Some("tls"), false, 1024);
    let mut first = parse(b"GET /a HTTP/1.1\r\n\r\n").1.unwrap().unwrap().0;
    let mut second = parse(b"GET /b HTTP/1.1\r\n\r\n").1.unwrap().unwrap().0;
    h1.set_on_connect_data(&mut first);
    h1.set_on_connect_data(&mut second);
    h1.set_peer_addr(&mut second);
    assert_eq!(first.on_connect_data, Some("tls"));
    assert_eq!(first.peer_addr, None);
    assert_eq!(second.on_connect_data, None);
    assert_eq!(second.peer_addr, Some(1));
    assert!(!h1.is_upgradeable());
}

#[test]
fn every_read_has_room_and_only_an_empty_one_is_the_last() {
    let mut h1: Dispatcher<Http> = Dispatcher::new(None, None, false, 100000);
    let mut output = h1_dispatch(&mut h1, Event::Wake);
    let mut read = 0;
    for _ in 0..20 {
        let room = match output.action {
            Action::Read { room } => room,
            _ => panic!(),
        };
        assert!(room >= LW_BUFFER_SIZE);
        // As much as there is said to be room for.
        let bytes = vec![b'a'; room.min(4000)];
        read += bytes.len();
        output = h1_dispatch(&mut h1, Event::Read(Poll::Ready(Ok(&bytes))));
    }
    assert_eq!(h1.read_buf().len(), read);
    let output = h1_dispatch(&mut h1, Event::Read(Poll::Ready(Ok(&[]))));
    assert!(matches!(output.action, Action::Decode));
    assert!(matches!(h1.phase(), Phase::Decoding(DispatchReaderState::All)));
}

#[test]
fn reader_makes_room_for_the_next_read() {
    let mut reader = DispatchReader::new();
    let mut buf = BytesMut::with_capacity(0);
    let step = reader.poll::<()>(&mut buf, 10, Poll::Ready(Ok(b"0123456789")));
    assert!(matches!(step, ReadStep::Again { room } if room >= LW_BUFFER_SIZE));
    assert!(buf.capacity() - buf.len() >= LW_BUFFER_SIZE);
    assert!(reader.read_some);
    let step = reader.poll::<()>(&mut buf, 10, Poll::Ready(Ok(b"x")));
    assert!(matches!(
        step,
        ReadStep::Ready(Err(IoFailure::Found(IoErrorKind::InvalidData)))
    ));
    assert_eq!(&buf[..], b"0123456789x");
}

#[test]
fn the_first_read_finds_the_buffer_as_it_was_made() {
    let mut h1: Dispatcher<Http> = Dispatcher::new(None, None, false, 1024);
    let first = match h1_dispatch(&mut h1, Event::Wake).action {
        Action::Read { room } => room,
        _ => panic!(),
    };
    assert!(first >= HW_BUFFER_SIZE);
    let output = h1_dispatch(&mut h1, Event::Read(Poll::Pending));
    assert!(matches!(output.action, Action::Wait));
    let output = h1_dispatch(&mut h1, Event::Wake);
    assert!(matches!(output.action, Action::Read { room } if room == first));
}

#[test]
fn writer_makes_room_before_it_asks_for_more_of_a_body() {
    let mut writer = DispatchWriter { payload: true, stage: WriterStage::Paused };
    let mut buf = BytesMut::with_capacity(0);
    let step: WriteStep<Http> = writer.poll(&mut buf);
    assert!(matches!(step, WriteStep::PollBody));
    assert!(buf.capacity() >= HW_BUFFER_SIZE);
    let chunk = vec![b'a'; HW_BUFFER_SIZE - 1];
    let step: WriteStep<Http> = writer.poll_encoded(false, &mut buf, Ok(&chunk));
    assert!(matches!(step, WriteStep::PollBody));
    assert!(buf.capacity() - buf.len() >= LW_BUFFER_SIZE);
    assert_eq!(&buf[..], &chunk[..]);
}

#[test]
fn a_handler_that_read_before_decodes_again_when_the_transport_is_pending() {
    let mut handler = DispatchServiceHandler::new(true);
    let mut buf = BytesMut::with_capacity(0);
    assert_eq!(handler.poll_pending::<Http>(), HandlerStep::NeedRead);
    assert_eq!(handler.poll_status::<Http>(PayloadStatus::Read), HandlerStep::DecodePayload);
    let (_, step) = handler.poll_item::<Http>(false, &mut buf, 0, Ok(None));
    assert!(matches!(step, HandlerStep::Read { room } if room == buf.capacity()));
    let (_, step) = handler.poll_read::<Http>(false, &mut buf, 100, Poll::Ready(Ok(b"a")));
    assert!(matches!(step, HandlerStep::Read { room } if room == buf.capacity() - 1));
    for _ in 0..3 {
        let (_, step) = handler.poll_read::<Http>(false, &mut buf, 100, Poll::Pending);
        assert_eq!(step, HandlerStep::DecodePayload);
        let (_, step) = handler.poll_item::<Http>(false, &mut buf, 0, Ok(None));
        assert!(matches!(step, HandlerStep::Read { .. }));
    }
}
