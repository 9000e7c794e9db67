//! The link session: owns a byte transport, performs the connection
//! handshake, and exposes a synchronous request/response exchange.
//!
//! A session that exists is connected: [`HostClient::connect`] hands one out
//! only after a handshake attempt succeeded, and gives up with
//! `HandshakeFailed` after [`HANDSHAKE_ATTEMPTS`] failed attempts.

use vstd::prelude::*;

use crate::error::{DeviceConnectError, ProtoRecvError, ProtoSendError, RequestError};
use crate::mu_frame::{
    ascii_payload, bytes_eq, push_all, valid_payload, MUFrame, MAX_DATA_SIZE,
};
use crate::transport::Transport;

verus! {

broadcast use vstd::string::group_string_axioms;

/// How many times the handshake is attempted before `connect` gives up.
pub const HANDSHAKE_ATTEMPTS: u8 = 3;

/// Relies on `String::from_utf8`: ASCII bytes are valid UTF-8, and their
/// string holds exactly those byte values as characters.
#[verifier::external_body]
pub(crate) fn ascii_to_string(bytes: Vec<u8>) -> (r: String)
    requires
        ascii_payload(bytes@),
    ensures
        r@.len() == bytes@.len(),
        forall|i: int| 0 <= i < bytes@.len() ==> r@[i] == bytes@[i] as char,
{
    String::from_utf8(bytes).unwrap_or_default()
}

/// Sends one frame through the transport. The transport is expected to give
/// the remote device time to compose its reply before the next read (the
/// serial implementation pauses after writing).
pub fn send_proto_message<T: Transport>(data: &MUFrame, transport: &mut T) -> (r: Result<
    (),
    ProtoSendError,
>)
    ensures
        r matches Err(e) ==> e is Io,
{
    let bytes = data.serialize();
    match transport.write_all(bytes.as_slice()) {
        Ok(()) => Ok(()),
        Err(e) => Err(ProtoSendError::Io(e)),
    }
}

/// Receives one frame: reads a raw buffer from the transport and decodes
/// it. Whatever the transport returned, a frame is handed up only if it
/// passed every validity check.
pub fn recv_proto_message<T: Transport>(transport: &mut T) -> (r: Result<MUFrame, ProtoRecvError>)
    ensures
        r matches Ok(f) ==> f.wf(),
{
    let buffer = match transport.read_chunk() {
        Ok(b) => b,
        Err(e) => {
            return Err(ProtoRecvError::Io(e));
        },
    };
    match MUFrame::deserialize(buffer.as_slice()) {
        Ok(f) => Ok(f),
        Err(e) => Err(ProtoRecvError::Decode(e)),
    }
}

/// A connected session over a byte transport. One instance owns its
/// transport exclusively and serializes its requests: each exchange is one
/// write followed by one read.
pub struct HostClient<T: Transport> {
    serial_port: T,
}

impl<T: Transport> HostClient<T> {
    /// Opens a session over an already-open transport: attempts the
    /// handshake up to [`HANDSHAKE_ATTEMPTS`] times and returns a connected
    /// session on the first success. After that many failed attempts the
    /// session is not usable and `HandshakeFailed` reports exactly how many
    /// attempts were made.
    pub fn connect(transport: T) -> (r: Result<Self, DeviceConnectError>)
        ensures
            r matches Err(e) ==> e == (DeviceConnectError::HandshakeFailed {
                attempts: HANDSHAKE_ATTEMPTS,
            }),
    {
        Self::try_handshake(transport)
    }

    /// The bounded handshake loop behind [`HostClient::connect`].
    fn try_handshake(instance: T) -> (r: Result<Self, DeviceConnectError>)
        ensures
            r matches Err(e) ==> e == (DeviceConnectError::HandshakeFailed {
                attempts: HANDSHAKE_ATTEMPTS,
            }),
    {
        let mut client_connection = HostClient { serial_port: instance };
        let mut attempts: u8 = 1;
        loop
            invariant
                1 <= attempts <= HANDSHAKE_ATTEMPTS,
            decreases HANDSHAKE_ATTEMPTS - attempts,
        {
            if client_connection.handshake_once() {
                return Ok(client_connection);
            }
            if attempts >= HANDSHAKE_ATTEMPTS {
                return Err(DeviceConnectError::HandshakeFailed { attempts });
            }
            attempts = attempts + 1;
        }
    }

    /// A view of the transport underneath the session, for diagnostics and
    /// for tests that inspect an in-memory transport.
    pub fn transport(&self) -> &T {
        &self.serial_port
    }

    /// One handshake attempt: sends `hello` and reports whether a reply
    /// arrived, decoded, and its payload is byte-for-byte `Hi!\r\n`. Any
    /// transport failure, decode failure or payload mismatch counts as a
    /// failed attempt.
    fn handshake_once(&mut self) -> bool {
        let greeting: &str = "hello";
        proof {
            reveal_strlit("hello");
            assert(vstd::string::is_ascii(greeting));
        }
        let gb = greeting.as_bytes();
        proof {
            assert forall|i: int| 0 <= i < gb@.len() implies gb@[i] < 0x80u8 by {
                assert(gb@[i] == greeting@[i] as u8);
                assert(greeting@[i] <= '\u{7f}');
            }
            assert(ascii_payload(gb@));
            assert(gb@.len() == 5);
        }
        let answer = match self.send_request_bytes(gb) {
            Ok(p) => p,
            Err(_) => {
                return false;
            },
        };
        bytes_eq(answer.as_slice(), "Hi!\r\n".as_bytes())
    }

    /// One request/response exchange at the byte level: appends a trailing
    /// newline to `request`, frames and writes it, then reads and decodes
    /// the response frame and returns its payload. A returned payload always
    /// passed the frame validity checks.
    pub fn send_request_bytes(&mut self, request: &[u8]) -> (r: Result<Vec<u8>, RequestError>)
        requires
            ascii_payload(request@),
            request@.len() + 1 <= MAX_DATA_SIZE,
        ensures
            r matches Ok(p) ==> valid_payload(p@),
    {
        let mut frame = MUFrame::new();
        let mut payload: Vec<u8> = Vec::new();
        push_all(&mut payload, request);
        payload.push(0x0A);
        proof {
            assert(valid_payload(payload@));
        }
        let loaded = frame.set_data(payload);
        if loaded.is_err() {
            proof {
                assert(false);
            }
        }
        match send_proto_message(&frame, &mut self.serial_port) {
            Ok(()) => {},
            Err(ProtoSendError::Io(e)) => {
                return Err(RequestError::RequestIoError(e));
            },
        }
        match recv_proto_message(&mut self.serial_port) {
            Ok(f) => Ok(f.data),
            Err(ProtoRecvError::Io(e)) => Err(RequestError::RequestIoError(e)),
            Err(ProtoRecvError::Decode(e)) => Err(RequestError::RequestDecodeError(e)),
        }
    }

    /// One request/response exchange at the text level: appends a trailing
    /// newline to `request`, frames and writes it, then reads back the
    /// response frame and returns its payload as text. A returned reply is
    /// 1 to 255 ASCII characters.
    pub fn send_request(&mut self, request: &str) -> (r: Result<String, RequestError>)
        requires
            vstd::string::is_ascii(request),
            request@.len() + 1 <= MAX_DATA_SIZE,
        ensures
            r matches Ok(s) ==> 1 <= s@.len() <= MAX_DATA_SIZE && vstd::string::string_is_ascii(
                &s,
            ),
    {
        let bytes = request.as_bytes();
        match self.send_request_bytes(bytes) {
            Ok(p) => {
                proof {
                    assert(valid_payload(p@));
                }
                let s = ascii_to_string(p);
                proof {
                    assert(vstd::string::string_is_ascii(&s));
                }
                Ok(s)
            },
            Err(e) => Err(e),
        }
    }
}

} // verus!
