//! The byte transport underneath a link session: a duplex, timeout-bounded
//! byte channel. A hardware serial port implements it outside this crate;
//! the in-memory implementations here make the protocol deterministic to
//! test, as a loopback buffer and as a scripted device double.

use vstd::prelude::*;

use crate::error::TransportError;
use crate::mu_frame::push_all;

verus! {

/// A duplex byte channel owned exclusively by one session: best-effort
/// whole-buffer writes and bounded-timeout reads. Nothing is assumed of
/// what a read returns or of whether either operation succeeds; the session
/// validates every buffer it receives.
pub trait Transport {
    /// Writes the whole byte sequence, or reports a transport failure.
    fn write_all(&mut self, data: &[u8]) -> (r: Result<(), TransportError>);

    /// Reads one raw response buffer: whatever bytes arrived before the
    /// configured timeout elapsed.
    fn read_chunk(&mut self) -> (r: Result<Vec<u8>, TransportError>);
}

/// An in-memory transport that hands written bytes straight back to the
/// reader: what `write_all` appends, the next `read_chunk` drains.
pub struct LoopbackTransport {
    /// Bytes written and not yet read back.
    pub buffer: Vec<u8>,
}

impl LoopbackTransport {
    /// An empty loopback channel.
    pub fn new() -> (r: Self)
        ensures
            r.buffer@.len() == 0,
    {
        Self { buffer: Vec::new() }
    }
}

impl Transport for LoopbackTransport {
    fn write_all(&mut self, data: &[u8]) -> (r: Result<(), TransportError>) {
        push_all(&mut self.buffer, data);
        Ok(())
    }

    fn read_chunk(&mut self) -> (r: Result<Vec<u8>, TransportError>) {
        let mut out: Vec<u8> = Vec::new();
        push_all(&mut out, self.buffer.as_slice());
        self.buffer.clear();
        Ok(out)
    }
}

/// An in-memory device double for deterministic tests: `read_chunk` serves
/// a preloaded script of response buffers in order, and every written
/// buffer is recorded so a test can check what was sent and in what order.
pub struct ScriptedTransport {
    /// The scripted response buffers, first to be served first.
    pub responses: Vec<Vec<u8>>,
    /// How many responses have been served.
    pub reads_made: usize,
    /// Every buffer written, in order.
    pub written: Vec<Vec<u8>>,
}

impl ScriptedTransport {
    /// A transport that will serve the given responses in order.
    pub fn new(responses: Vec<Vec<u8>>) -> (r: Self)
        ensures
            r.responses@ == responses@,
            r.reads_made == 0,
            r.written@.len() == 0,
    {
        Self { responses, reads_made: 0, written: Vec::new() }
    }

    /// How many reads the session has performed on this transport.
    pub fn reads(&self) -> (r: usize)
        ensures
            r == self.reads_made,
    {
        self.reads_made
    }

    /// How many buffers the session has written to this transport.
    pub fn writes(&self) -> (r: usize)
        ensures
            r == self.written@.len(),
    {
        self.written.len()
    }

    /// The `i`-th buffer written, if that many were.
    pub fn written_at(&self, i: usize) -> (r: Option<&Vec<u8>>)
        ensures
            i < self.written@.len() ==> (r matches Some(v) && v@ == self.written@[i as int]@),
            i >= self.written@.len() ==> r is None,
    {
        if i < self.written.len() {
            Some(&self.written[i])
        } else {
            None
        }
    }
}

impl Transport for ScriptedTransport {
    fn write_all(&mut self, data: &[u8]) -> (r: Result<(), TransportError>) {
        let mut copy: Vec<u8> = Vec::new();
        push_all(&mut copy, data);
        self.written.push(copy);
        Ok(())
    }

    fn read_chunk(&mut self) -> (r: Result<Vec<u8>, TransportError>) {
        if self.reads_made < self.responses.len() {
            let mut out: Vec<u8> = Vec::new();
            push_all(&mut out, self.responses[self.reads_made].as_slice());
            self.reads_made = self.reads_made + 1;
            Ok(out)
        } else {
            Err(TransportError::Timeout)
        }
    }
}

} // verus!
