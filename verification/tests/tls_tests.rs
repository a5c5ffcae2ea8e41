//! Two TLS engines that talk through the library's buffers.

use std::io::{Error, ErrorKind, Read, Write};

use openssl::asn1::Asn1Time;
use openssl::hash::MessageDigest;
use openssl::pkey::{PKey, Private};
use openssl::rsa::Rsa;
use openssl::ssl::{
    ShutdownResult, Ssl, SslAcceptor, SslConnector, SslMethod, SslVerifyMode, SslVersion,
};
use openssl::x509::{X509NameBuilder, X509};

use kimojio::ssl::{
    BufferedRead, SslAction, SslDriver, SslEvent, SslOp, SslOutcome, SyncBufferedStream,
    FILL_SIZE,
};

struct Buffers(SyncBufferedStream);

impl Read for Buffers {
    fn read(&mut self, buf: &mut [u8]) -> std::io::Result<usize> {
        match self.0.read(buf) {
            BufferedRead::Read(n) => Ok(n),
            BufferedRead::WouldBlock => Err(Error::new(ErrorKind::WouldBlock, "no data")),
        }
    }
}

impl Write for Buffers {
    fn write(&mut self, buf: &[u8]) -> std::io::Result<usize> {
        Ok(self.0.write(buf))
    }

    fn flush(&mut self) -> std::io::Result<()> {
        Ok(())
    }
}

type Engine = openssl::ssl::SslStream<Buffers>;
type Call = Box<dyn FnMut(&mut Engine) -> SslOutcome<Error>>;

/// One side of a connection, and what the other side sent to it.
struct Side {
    engine: Engine,
    inbox: Vec<u8>,
    running: Option<(SslDriver, Option<SslEvent<Error>>, Call)>,
}

fn outcome(result: Result<usize, openssl::ssl::Error>) -> SslOutcome<Error> {
    match result {
        Ok(n) => SslOutcome::Done(n),
        Err(e) => match e.into_io_error() {
            Ok(e) => io_outcome(e),
            Err(e) => SslOutcome::Failed(Error::other(e)),
        },
    }
}

fn io_outcome(e: Error) -> SslOutcome<Error> {
    if e.kind() == ErrorKind::WouldBlock {
        SslOutcome::WouldBlock
    } else {
        SslOutcome::Failed(e)
    }
}

impl Side {
    fn new(ssl: Ssl) -> Side {
        let buffers = Buffers(SyncBufferedStream::new());
        Side {
            engine: openssl::ssl::SslStream::new(ssl, buffers).unwrap(),
            inbox: Vec::new(),
            running: None,
        }
    }

    fn begin(&mut self, op: SslOp, call: Call) {
        self.running = Some((SslDriver::new(op), Some(SslEvent::Begin), call));
    }

    /// Runs the operation until it is over, or waits for the other side.
    fn advance(&mut self, outbox: &mut Vec<u8>) -> Option<usize> {
        let (mut driver, mut event, mut call) = self.running.take().unwrap();
        loop {
            let next = match event.take() {
                Some(event) => driver.step(event),
                None => SslAction::Fill,
            };
            event = Some(match next {
                SslAction::Call => SslEvent::Called(call(&mut self.engine)),
                SslAction::Flush => {
                    let buffers = &mut self.engine.get_mut().0;
                    let sent = match buffers.pending_writes() {
                        Some(bytes) => {
                            outbox.extend_from_slice(bytes);
                            buffers.flush_write_buff(Ok(()))
                        }
                        None => Ok(0),
                    };
                    SslEvent::Flushed(sent)
                }
                SslAction::Fill => {
                    if self.inbox.is_empty() {
                        self.running = Some((driver, None, call));
                        return None;
                    }
                    let n = self.inbox.len().min(FILL_SIZE);
                    let data: Vec<u8> = self.inbox.drain(..n).collect();
                    self.engine.get_mut().0.fill_read_buff(&data);
                    SslEvent::Filled(Ok(()))
                }
                SslAction::Done(Ok(n)) => return Some(n),
                SslAction::Done(Err(_)) => panic!("the operation failed"),
            });
        }
    }
}

/// Runs what both sides began, to its end.
fn together(client: &mut Side, server: &mut Side) -> (usize, usize) {
    let mut done = (None, None);
    for _ in 0..100 {
        let mut to_server = Vec::new();
        let mut to_client = Vec::new();
        if done.0.is_none() {
            done.0 = client.advance(&mut to_server);
        }
        server.inbox.extend(to_server);
        if done.1.is_none() {
            done.1 = server.advance(&mut to_client);
        }
        client.inbox.extend(to_client);
        if let (Some(c), Some(s)) = done {
            return (c, s);
        }
    }
    panic!("the sides wait for each other");
}

/// Runs what one side began, to its end.
fn alone(side: &mut Side, other: &mut Side) -> usize {
    let mut sent = Vec::new();
    let n = side.advance(&mut sent).unwrap();
    other.inbox.extend(sent);
    n
}

fn certificate() -> (X509, PKey<Private>) {
    let key = PKey::from_rsa(Rsa::generate(2048).unwrap()).unwrap();
    let mut name = X509NameBuilder::new().unwrap();
    name.append_entry_by_text("CN", "localhost").unwrap();
    let name = name.build();
    let mut x509 = X509::builder().unwrap();
    x509.set_version(2).unwrap();
    x509.set_subject_name(&name).unwrap();
    x509.set_issuer_name(&name).unwrap();
    x509.set_not_before(&Asn1Time::days_from_now(0).unwrap()).unwrap();
    x509.set_not_after(&Asn1Time::days_from_now(1).unwrap()).unwrap();
    x509.set_pubkey(&key).unwrap();
    x509.sign(&key, MessageDigest::sha256()).unwrap();
    (x509.build(), key)
}

fn sides() -> (Side, Side) {
    let (cert, key) = certificate();
    let mut acceptor = SslAcceptor::mozilla_intermediate_v5(SslMethod::tls()).unwrap();
    acceptor.set_certificate(&cert).unwrap();
    acceptor.set_private_key(&key).unwrap();
    acceptor.set_min_proto_version(Some(SslVersion::TLS1_2)).unwrap();
    let acceptor = acceptor.build();
    let mut connector = SslConnector::builder(SslMethod::tls()).unwrap();
    connector.set_verify(SslVerifyMode::NONE);
    connector.set_min_proto_version(Some(SslVersion::TLS1_2)).unwrap();
    let connector = connector.build().configure().unwrap();
    let client = Side::new(connector.into_ssl("localhost").unwrap());
    let server = Side::new(Ssl::new(acceptor.context()).unwrap());
    (client, server)
}

fn handshake(client: &mut Side, server: &mut Side) {
    client.begin(SslOp::Handshake, Box::new(|s| outcome(s.connect().map(|_| 0))));
    server.begin(SslOp::Handshake, Box::new(|s| outcome(s.accept().map(|_| 0))));
    together(client, server);
}

fn write(side: &mut Side, other: &mut Side, data: Vec<u8>) -> usize {
    side.begin(
        SslOp::Write,
        Box::new(move |s| match s.write(&data) {
            Ok(n) => SslOutcome::Done(n),
            Err(e) => io_outcome(e),
        }),
    );
    alone(side, other)
}

fn read(side: &mut Side, other: &mut Side, len: usize) -> Vec<u8> {
    let message = std::rc::Rc::new(std::cell::RefCell::new(vec![0u8; len]));
    let into = message.clone();
    side.begin(
        SslOp::Read,
        Box::new(move |s| match s.read(&mut into.borrow_mut()) {
            Ok(n) => SslOutcome::Done(n),
            Err(e) => io_outcome(e),
        }),
    );
    let n = alone(side, other);
    let message = message.borrow()[..n].to_vec();
    message
}

fn begin_shutdown(side: &mut Side) {
    side.begin(
        SslOp::Shutdown,
        Box::new(|s| {
            outcome(s.shutdown().map(|result| match result {
                ShutdownResult::Sent => 0,
                ShutdownResult::Received => 1,
            }))
        }),
    );
}

#[test]
fn test_rs_server_rs_client() {
    let (mut client, mut server) = sides();
    handshake(&mut client, &mut server);

    assert_eq!(write(&mut client, &mut server, b"hello".to_vec()), 5);
    assert_eq!(read(&mut server, &mut client, 5), b"hello");
    assert_eq!(write(&mut server, &mut client, b"goodbye".to_vec()), 7);
    assert_eq!(read(&mut client, &mut server, 7), b"goodbye");

    // Both sides say that they end, then both see it of the other.
    begin_shutdown(&mut client);
    assert_eq!(alone(&mut client, &mut server), 0);
    begin_shutdown(&mut server);
    assert_eq!(alone(&mut server, &mut client), 0);
    begin_shutdown(&mut client);
    begin_shutdown(&mut server);
    assert_eq!(together(&mut client, &mut server), (1, 1));
}

#[test]
fn large_message_goes_through_the_buffers() {
    let (mut client, mut server) = sides();
    handshake(&mut client, &mut server);
    let data: Vec<u8> = (0..40_000u32).map(|i| i as u8).collect();
    let mut sent = 0;
    let mut parts = 0;
    while sent < data.len() {
        sent += write(&mut client, &mut server, data[sent..].to_vec());
        parts += 1;
    }
    assert!(parts > 1);
    let mut received = Vec::new();
    while received.len() < data.len() {
        received.extend(read(&mut server, &mut client, data.len()));
    }
    assert_eq!(received, data);
}
