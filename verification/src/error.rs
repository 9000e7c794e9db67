//! Error taxonomy of the protocol stack: frame-level decode and encode
//! errors, transport errors, and the terminal errors of the session and
//! command layers.

use vstd::prelude::*;

verus! {

/// Why a received byte buffer was rejected by the frame decoder.
#[derive(Debug, Clone, Copy, PartialEq, Eq, Structural)]
pub enum FrameDecodeError {
    /// The buffer holds fewer bytes than the header's length field demands,
    /// or announces an empty payload.
    BadDataSize,
    /// A payload byte is not 7-bit ASCII.
    BadEncoding,
    /// The stored checksum differs from the one recomputed over the opcode
    /// and the payload.
    BadCRC,
    /// The first byte is not the start sentinel.
    BadPrefix,
    /// The trailing byte is not the end sentinel.
    BadPostfix,
}

/// Why a payload was rejected by the frame encoder.
#[derive(Debug, Clone, Copy, PartialEq, Eq, Structural)]
pub enum FrameEncodeError {
    /// The payload is empty, longer than 255 bytes, or not 7-bit ASCII.
    InvalidPayload,
}

/// A failure reported by the byte transport underneath a session.
#[derive(Debug, Clone, Copy, PartialEq, Eq, Structural)]
pub enum TransportError {
    /// A read or write failed at the OS/driver boundary.
    IoError,
    /// A read did not complete before the configured timeout elapsed.
    Timeout,
}

/// Why receiving one protocol message failed.
#[derive(Debug, Clone, Copy, PartialEq, Eq, Structural)]
pub enum ProtoRecvError {
    /// The bytes that arrived do not form a valid frame.
    Decode(FrameDecodeError),
    /// The transport failed before a buffer could be read.
    Io(TransportError),
}

/// Why sending one protocol message failed.
#[derive(Debug, Clone, Copy, PartialEq, Eq, Structural)]
pub enum ProtoSendError {
    /// The transport failed while the frame bytes were being written.
    Io(TransportError),
}

/// Why a connection attempt to the device failed.
#[derive(Debug, Clone, Copy, PartialEq, Eq, Structural)]
pub enum DeviceConnectError {
    /// Every handshake attempt failed; `attempts` says how many were made.
    HandshakeFailed { attempts: u8 },
}

/// Why one request/response exchange on a connected session failed.
#[derive(Debug, Clone, Copy, PartialEq, Eq, Structural)]
pub enum RequestError {
    /// The transport failed during the exchange.
    RequestIoError(TransportError),
    /// The response bytes do not form a valid frame.
    RequestDecodeError(FrameDecodeError),
}

/// Terminal failure of a command-level operation after its retry budget was
/// exhausted; each variant carries the number of attempts that were made.
#[derive(Debug, Clone, Copy, PartialEq, Eq, Structural)]
pub enum CommandError {
    /// Pulling the settings from the device failed on every attempt.
    PullRequestFailed { attempts: u8 },
    /// Pushing the settings to the device failed on every attempt.
    PushRequestFailed { attempts: u8 },
    /// Starting the data streaming failed on every attempt.
    StreamingRequestFailed { attempts: u8 },
}

/// Why a settings line received from the device could not be read back as a
/// value.
#[derive(Debug, Clone, Copy, PartialEq, Eq, Structural)]
pub enum SettingsParseError {
    /// The line does not have the shape `key: value` with the expected key.
    BadShape,
    /// The value part is not a decimal number that fits in eight bits.
    BadValue,
}

} // verus!
