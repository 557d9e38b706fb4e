//! The stream client: what to put on the wire for a message, and what to
//! make of what came back.

use tokio::net::TcpStream;
use vstd::prelude::*;
use vstd::utf8::decode_utf8;
use vstd::utf8::encode_utf8;
use vstd::utf8::valid_utf8;
use crate::error::IoFailure;

verus! {

/// `tokio::net::TcpStream`, carried as it is: nothing of its inside is seen
/// here.
#[verifier::external_type_specification]
#[verifier::external_body]
pub struct ExTcpStream(TcpStream);

/// Why the client has no answer.
#[derive(Clone, Copy, Debug, PartialEq, Eq, Structural)]
pub enum ClientError {
    /// The server closed the connection: a read returned no bytes.
    ConnectionClosed,
    /// The transport failed.
    Transport(IoFailure),
}

/// How one read from the connection ended.
#[derive(Clone, Copy, Debug, PartialEq, Eq, Structural)]
pub enum ReadOutcome {
    /// This many bytes were put at the start of the buffer.
    Read(usize),
    /// The read failed.
    Failed(IoFailure),
}

/// The text that `String::from_utf8_lossy` makes of these bytes.
pub uninterp spec fn utf8_lossy(bytes: Seq<u8>) -> Seq<char>;

/// `String::from_utf8_lossy`, its result as a `String` of its own. Bytes that
/// are valid UTF-8 come back as the text they encode; in any other bytes each
/// invalid stretch is replaced by U+FFFD, which the name `utf8_lossy` stands
/// for.
#[verifier::external_body]
fn text_of(bytes: &[u8]) -> (text: String)
    ensures
        text@ == utf8_lossy(bytes@),
        valid_utf8(bytes@) ==> text@ == decode_utf8(bytes@),
{
    String::from_utf8_lossy(bytes).into_owned()
}

/// What a read of `outcome` into `buffer` means to the client.
pub open spec fn response_of(buffer: Seq<u8>, outcome: ReadOutcome) -> Result<
    Seq<char>,
    ClientError,
> {
    match outcome {
        ReadOutcome::Read(n) => if n == 0 {
            Err(ClientError::ConnectionClosed)
        } else {
            Ok(utf8_lossy(buffer.take(n as int)))
        },
        ReadOutcome::Failed(failure) => Err(ClientError::Transport(failure)),
    }
}

/// The result with the text of a `String` in place of the `String`.
pub open spec fn text_view(response: Result<String, ClientError>) -> Result<
    Seq<char>,
    ClientError,
> {
    match response {
        Ok(text) => Ok(text@),
        Err(error) => Err(error),
    }
}

/// A client on one connection.
pub struct TcpClient {
    stream: TcpStream,
}

impl TcpClient {
    /// The connection that the client talks over.
    pub closed spec fn connection(&self) -> TcpStream {
        self.stream
    }

    /// A client on a connection that is already made.
    pub fn from_stream(stream: TcpStream) -> (client: Self)
        ensures
            client.connection() == stream,
    {
        TcpClient { stream }
    }

    /// Makes the client of an attempt to connect: a client on the connection
    /// if there is one, else the failure as a transport error.
    pub fn connect(connected: Result<TcpStream, IoFailure>) -> (client: Result<Self, ClientError>)
        ensures
            match connected {
                Ok(stream) => client matches Ok(c) && c.connection() == stream,
                Err(failure) => client matches Err(e) && e == ClientError::Transport(failure),
            },
    {
        match connected {
            Ok(stream) => Ok(Self::from_stream(stream)),
            Err(failure) => Err(ClientError::Transport(failure)),
        }
    }

    /// The connection, for sending and receiving.
    pub fn stream_mut(&mut self) -> (stream: &mut TcpStream)
        ensures
            *stream == old(self).connection(),
            final(self).connection() == *final(stream),
    {
        &mut self.stream
    }

    /// The bytes to send for `message`: its UTF-8 encoding, nothing added.
    pub fn send_message(message: &str) -> (bytes: &[u8])
        ensures
            bytes@ == encode_utf8(message@),
    {
        message.as_bytes()
    }

    /// What sending a message comes to, given how the write of its bytes
    /// ended: success exactly if all of them were written, else the failure
    /// as a transport error. Nothing is retried.
    pub fn message_sent(written: Result<(), IoFailure>) -> (sent: Result<(), ClientError>)
        ensures
            match written {
                Ok(()) => sent == Ok::<(), ClientError>(()),
                Err(failure) => sent == Err::<(), ClientError>(ClientError::Transport(failure)),
            },
    {
        match written {
            Ok(()) => Ok(()),
            Err(failure) => Err(ClientError::Transport(failure)),
        }
    }

    /// Makes the answer of one read: the bytes read, as text; an error if the
    /// server closed the connection or the read failed.
    pub fn receive_response(buffer: &[u8], outcome: ReadOutcome) -> (response: Result<
        String,
        ClientError,
    >)
        requires
            outcome matches ReadOutcome::Read(n) ==> n <= buffer@.len(),
        ensures
            text_view(response) == response_of(buffer@, outcome),
            outcome matches ReadOutcome::Read(n) ==> (n > 0 && valid_utf8(buffer@.take(n as int))
                ==> text_view(response) == Ok::<Seq<char>, ClientError>(
                decode_utf8(buffer@.take(n as int)),
            )),
    {
        match outcome {
            ReadOutcome::Read(n) => {
                if n == 0 {
                    Err(ClientError::ConnectionClosed)
                } else {
                    let read = vstd::slice::slice_subrange(buffer, 0, n);
                    Ok(text_of(read))
                }
            },
            ReadOutcome::Failed(failure) => Err(ClientError::Transport(failure)),
        }
    }
}

impl ClientError {
    /// A short description, for a log line or a message to the user.
    pub fn message(&self) -> (text: &'static str)
        ensures
            text@ == match *self {
                ClientError::ConnectionClosed => "Connection closed"@,
                ClientError::Transport(_) => "transport failure"@,
            },
    {
        match self {
            ClientError::ConnectionClosed => "Connection closed",
            ClientError::Transport(_) => "transport failure",
        }
    }
}

/// What a client sends for a message and reads back in one piece from an
/// echo server is the message again, if it fits the buffer.
pub proof fn lemma_round_trip(message: Seq<char>, buffer: Seq<u8>)
    requires
        0 < encode_utf8(message).len() <= buffer.len(),
        buffer.len() <= usize::MAX,
        buffer.take(encode_utf8(message).len() as int) == encode_utf8(message),
    ensures
        response_of(buffer, ReadOutcome::Read(encode_utf8(message).len() as usize)) is Ok,
        valid_utf8(buffer.take(encode_utf8(message).len() as int)),
        decode_utf8(buffer.take(encode_utf8(message).len() as int)) == message,
{
    vstd::utf8::encode_utf8_valid_utf8(message);
    vstd::utf8::encode_utf8_decode_utf8(message);
}

} // verus!
