//! Frame codec of the "MU" wire protocol.
//!
//! A frame is `prefix ∥ length ∥ opcode ∥ payload ∥ checksum ∥ suffix`: two
//! fixed sentinel bytes delimit a one-byte length, a one-byte opcode, a
//! payload of 1 to 255 ASCII bytes, and a CRC-8/NRSC-5 checksum computed over
//! the opcode followed by the payload.

use vstd::prelude::*;

use crate::error::{FrameDecodeError, FrameEncodeError};

verus! {

/// Start sentinel: the first byte of every frame.
pub const SYNC1: u8 = 0xAA;

/// End sentinel: the last byte of every frame.
pub const SYNC2: u8 = 0xBB;

/// Upper bound on the payload length, forced by the one-byte length field.
pub const MAX_DATA_SIZE: u8 = 255;

/// The opcode used for all console-style requests in this system.
pub const CONSOLE_OPCODE: u8 = 0xC0;

/// The checksum that the CRC-8/NRSC-5 algorithm assigns to a byte sequence.
/// The algorithm is left uninterpreted: the trusted [`crc8_checksum`] below
/// is the only place that computes it.
pub uninterp spec fn crc8_nrsc5(data: Seq<u8>) -> u8;

/// Relies on `crc::Crc::<u8>::new(&crc::CRC_8_NRSC_5).checksum`: the
/// checksum is a pure function of the input bytes (a table-driven CRC with
/// fixed parameters), named here by [`crc8_nrsc5`].
#[verifier::external_body]
fn crc8_checksum(data: &[u8]) -> (r: u8)
    ensures
        r == crc8_nrsc5(data@),
{
    crc::Crc::<u8>::new(&crc::CRC_8_NRSC_5).checksum(data)
}

/// A payload byte must be 7-bit ASCII.
pub open spec fn is_ascii_byte(b: u8) -> bool {
    b < 0x80
}

/// Every byte of the sequence is 7-bit ASCII.
pub open spec fn ascii_payload(p: Seq<u8>) -> bool {
    forall|i: int| 0 <= i < p.len() ==> is_ascii_byte(p[i])
}

/// What a payload must satisfy to be carried by a frame: non-empty, at most
/// 255 bytes, and entirely ASCII.
pub open spec fn valid_payload(p: Seq<u8>) -> bool {
    &&& 1 <= p.len() <= MAX_DATA_SIZE
    &&& ascii_payload(p)
}

/// The checksum field of a frame: CRC-8/NRSC-5 over the opcode followed by
/// the payload.
pub open spec fn frame_checksum(opcode: u8, payload: Seq<u8>) -> u8 {
    crc8_nrsc5(seq![opcode] + payload)
}

/// The wire bytes of a frame with the given opcode and payload.
pub open spec fn frame_bytes(opcode: u8, payload: Seq<u8>) -> Seq<u8> {
    seq![SYNC1, payload.len() as u8, opcode] + payload + seq![
        frame_checksum(opcode, payload),
        SYNC2,
    ]
}

/// The buffer is long enough for the frame its length field announces, and
/// the announced payload is non-empty.
pub open spec fn wire_size_ok(b: Seq<u8>) -> bool {
    &&& b.len() >= 5
    &&& b[1] >= 1
    &&& b.len() >= 5 + b[1] as int
}

/// The payload length a buffer announces.
pub open spec fn wire_length(b: Seq<u8>) -> int {
    b[1] as int
}

/// The payload region of a buffer.
pub open spec fn wire_payload(b: Seq<u8>) -> Seq<u8> {
    b.subrange(3, 3 + wire_length(b))
}

/// The first byte is the start sentinel.
pub open spec fn wire_prefix_ok(b: Seq<u8>) -> bool {
    b[0] == SYNC1
}

/// The byte after the checksum is the end sentinel.
pub open spec fn wire_postfix_ok(b: Seq<u8>) -> bool {
    b[4 + wire_length(b)] == SYNC2
}

/// The stored checksum equals the one recomputed over opcode and payload.
pub open spec fn wire_crc_ok(b: Seq<u8>) -> bool {
    b[3 + wire_length(b)] == frame_checksum(b[2], wire_payload(b))
}

/// The payload region is entirely ASCII.
pub open spec fn wire_encoding_ok(b: Seq<u8>) -> bool {
    ascii_payload(wire_payload(b))
}

/// All the validity checks of the decoder together.
pub open spec fn wire_valid(b: Seq<u8>) -> bool {
    &&& wire_size_ok(b)
    &&& wire_prefix_ok(b)
    &&& wire_postfix_ok(b)
    &&& wire_crc_ok(b)
    &&& wire_encoding_ok(b)
}

/// What decoding a buffer yields: the opcode and the payload of the frame it
/// holds, or the first failed check in the order the decoder tests them.
pub open spec fn spec_decode(b: Seq<u8>) -> Result<(u8, Seq<u8>), FrameDecodeError> {
    if !wire_size_ok(b) {
        Err(FrameDecodeError::BadDataSize)
    } else if !wire_prefix_ok(b) {
        Err(FrameDecodeError::BadPrefix)
    } else if !wire_postfix_ok(b) {
        Err(FrameDecodeError::BadPostfix)
    } else if !wire_crc_ok(b) {
        Err(FrameDecodeError::BadCRC)
    } else if !wire_encoding_ok(b) {
        Err(FrameDecodeError::BadEncoding)
    } else {
        Ok((b[2], wire_payload(b)))
    }
}

/// Every byte of `data` is ASCII, decided executably.
fn payload_is_ascii(data: &[u8]) -> (r: bool)
    ensures
        r == ascii_payload(data@),
{
    let mut i: usize = 0;
    while i < data.len()
        invariant
            0 <= i <= data@.len(),
            forall|j: int| 0 <= j < i ==> is_ascii_byte(data@[j]),
        decreases data@.len() - i,
    {
        if data[i] >= 0x80 {
            return false;
        }
        i = i + 1;
    }
    true
}

/// Appends all of `src` to `dst`.
pub(crate) fn push_all(dst: &mut Vec<u8>, src: &[u8])
    ensures
        final(dst)@ == old(dst)@ + src@,
{
    let mut i: usize = 0;
    while i < src.len()
        invariant
            0 <= i <= src@.len(),
            dst@ == old(dst)@ + src@.subrange(0, i as int),
        decreases src@.len() - i,
    {
        dst.push(src[i]);
        assert(dst@ == old(dst)@ + src@.subrange(0, (i + 1) as int));
        i = i + 1;
    }
    assert(src@.subrange(0, src@.len() as int) == src@);
}

/// One frame of the MU protocol.
///
/// A freshly constructed frame is an empty shell; [`MUFrame::set_data`]
/// loads a payload and derives the length and the checksum, after which the
/// frame is well-formed ([`MUFrame::wf`]) and can be serialized.
#[derive(Debug, Clone)]
pub struct MUFrame {
    /// Start sentinel, [`SYNC1`] on every valid frame.
    pub prefix: u8,
    /// Number of payload bytes.
    pub length: u8,
    /// Operation tag of the message.
    pub opcode: u8,
    /// The payload bytes.
    pub data: Vec<u8>,
    /// CRC-8/NRSC-5 over opcode followed by payload.
    pub crc: u8,
    /// End sentinel, [`SYNC2`] on every valid frame.
    pub suffix: u8,
}

impl MUFrame {
    /// The frame invariant: sentinels in place, length consistent with the
    /// payload, payload valid, checksum derived from opcode and payload.
    pub open spec fn wf(&self) -> bool {
        &&& self.prefix == SYNC1
        &&& self.suffix == SYNC2
        &&& self.length as int == self.data@.len()
        &&& valid_payload(self.data@)
        &&& self.crc == frame_checksum(self.opcode, self.data@)
    }

    /// A fresh, empty frame carrying the console opcode.
    pub fn new() -> (r: Self)
        ensures
            r.prefix == SYNC1,
            r.suffix == SYNC2,
            r.length == 0,
            r.opcode == CONSOLE_OPCODE,
            r.data@ == Seq::<u8>::empty(),
            r.crc == 0,
    {
        Self {
            prefix: SYNC1,
            length: 0,
            opcode: CONSOLE_OPCODE,
            data: Vec::new(),
            crc: 0,
            suffix: SYNC2,
        }
    }

    /// The payload carried by the frame.
    pub fn get_data(&self) -> (r: &Vec<u8>)
        ensures
            r@ == self.data@,
    {
        &self.data
    }

    /// The operation tag of the frame.
    pub fn get_opcode(&self) -> (r: u8)
        ensures
            r == self.opcode,
    {
        self.opcode
    }

    /// Loads a payload into the frame and derives the length and the
    /// checksum. Succeeds exactly on valid payloads (1 to 255 ASCII bytes);
    /// on failure the frame is unchanged.
    pub fn set_data(&mut self, data: Vec<u8>) -> (r: Result<(), FrameEncodeError>)
        ensures
            r is Ok <==> valid_payload(data@),
            r is Err ==> r->Err_0 == FrameEncodeError::InvalidPayload,
            r is Ok ==> final(self).data@ == data@ && final(self).length as int == data@.len()
                && final(self).crc == frame_checksum(final(self).opcode, data@),
            final(self).prefix == old(self).prefix && final(self).suffix == old(self).suffix
                && final(self).opcode == old(self).opcode,
            r is Err ==> final(self).data@ == old(self).data@ && final(self).length == old(
                self,
            ).length && final(self).crc == old(self).crc,
            old(self).prefix == SYNC1 && old(self).suffix == SYNC2 && r is Ok
                ==> final(self).wf(),
    {
        if data.len() > MAX_DATA_SIZE as usize || data.is_empty() {
            return Err(FrameEncodeError::InvalidPayload);
        }
        if !payload_is_ascii(data.as_slice()) {
            return Err(FrameEncodeError::InvalidPayload);
        }
        self.length = data.len() as u8;
        self.data = data;
        self.crc = self.calculate_crc();
        Ok(())
    }

    /// Decodes a frame from a raw buffer: the three header bytes, exactly
    /// `length` payload bytes, then checksum and end sentinel; bytes beyond
    /// the frame are ignored. Succeeds exactly on buffers that pass every
    /// validity check, and reports the first failed check otherwise, as
    /// [`spec_decode`] states.
    pub fn deserialize(data: &[u8]) -> (r: Result<Self, FrameDecodeError>)
        ensures
            r is Ok <==> spec_decode(data@) is Ok,
            r is Err ==> Err::<(u8, Seq<u8>), FrameDecodeError>(r->Err_0) == spec_decode(data@),
            r is Ok ==> {
                let f = r->Ok_0;
                &&& f.wf()
                &&& f.opcode == data@[2]
                &&& f.data@ == wire_payload(data@)
                &&& f.length as int == wire_length(data@)
            },
    {
        if data.len() < 5 {
            return Err(FrameDecodeError::BadDataSize);
        }
        let length = data[1];
        if length == 0 {
            return Err(FrameDecodeError::BadDataSize);
        }
        if data.len() < 5 + length as usize {
            return Err(FrameDecodeError::BadDataSize);
        }
        let mut payload: Vec<u8> = Vec::new();
        let mut i: usize = 0;
        while i < length as usize
            invariant
                0 <= i <= length as int,
                data@.len() >= 5 + length as int,
                payload@ == data@.subrange(3, 3 + i as int),
            decreases length as int - i,
        {
            payload.push(data[3 + i]);
            assert(payload@ == data@.subrange(3, 3 + (i + 1) as int));
            i = i + 1;
        }
        let frame = Self {
            prefix: data[0],
            length,
            opcode: data[2],
            data: payload,
            crc: data[3 + length as usize],
            suffix: data[4 + length as usize],
        };
        match frame.invalidate_frame() {
            Ok(()) => Ok(frame),
            Err(e) => Err(e),
        }
    }

    /// Serializes the frame to its wire bytes; for a well-formed frame these
    /// are exactly [`frame_bytes`] of its opcode and payload.
    pub fn serialize(&self) -> (r: Vec<u8>)
        ensures
            r@ == seq![self.prefix, self.length, self.opcode] + self.data@ + seq![
                self.crc,
                self.suffix,
            ],
            self.wf() ==> r@ == frame_bytes(self.opcode, self.data@),
    {
        let mut result: Vec<u8> = Vec::new();
        result.push(self.prefix);
        result.push(self.length);
        result.push(self.opcode);
        push_all(&mut result, self.data.as_slice());
        result.push(self.crc);
        result.push(self.suffix);
        proof {
            assert(result@ =~= seq![self.prefix, self.length, self.opcode] + self.data@ + seq![
                self.crc,
                self.suffix,
            ]);
            if self.wf() {
                assert(result@ =~= frame_bytes(self.opcode, self.data@));
            }
        }
        result
    }

    /// Runs every validity check on the frame as it stands and reports the
    /// first one that fails, in the order: prefix, postfix, checksum,
    /// encoding.
    pub fn invalidate_frame(&self) -> (r: Result<(), FrameDecodeError>)
        ensures
            r == if self.prefix != SYNC1 {
                Err::<(), FrameDecodeError>(FrameDecodeError::BadPrefix)
            } else if self.suffix != SYNC2 {
                Err(FrameDecodeError::BadPostfix)
            } else if self.crc != frame_checksum(self.opcode, self.data@) {
                Err(FrameDecodeError::BadCRC)
            } else if !ascii_payload(self.data@) {
                Err(FrameDecodeError::BadEncoding)
            } else {
                Ok(())
            },
    {
        if !self.is_prefix_correct() {
            return Err(FrameDecodeError::BadPrefix);
        }
        if !self.is_postfix_correct() {
            return Err(FrameDecodeError::BadPostfix);
        }
        if !self.is_crc_valid(self.crc) {
            return Err(FrameDecodeError::BadCRC);
        }
        if !payload_is_ascii(self.data.as_slice()) {
            return Err(FrameDecodeError::BadEncoding);
        }
        Ok(())
    }

    /// Recomputes the checksum of the frame over its opcode and payload.
    fn calculate_crc(&self) -> (r: u8)
        ensures
            r == frame_checksum(self.opcode, self.data@),
    {
        let mut crc_data: Vec<u8> = Vec::new();
        crc_data.push(self.opcode);
        push_all(&mut crc_data, self.data.as_slice());
        proof {
            assert(crc_data@ =~= seq![self.opcode] + self.data@);
        }
        crc8_checksum(crc_data.as_slice())
    }

    /// Whether `crc` agrees with the checksum recomputed from the frame.
    pub fn is_crc_valid(&self, crc: u8) -> (r: bool)
        ensures
            r == (crc == frame_checksum(self.opcode, self.data@)),
    {
        let calculated_crc = self.calculate_crc();
        calculated_crc == crc
    }

    /// Whether the prefix is the start sentinel.
    pub fn is_prefix_correct(&self) -> (r: bool)
        ensures
            r == (self.prefix == SYNC1),
    {
        self.prefix == SYNC1
    }

    /// Whether the suffix is the end sentinel.
    pub fn is_postfix_correct(&self) -> (r: bool)
        ensures
            r == (self.suffix == SYNC2),
    {
        self.suffix == SYNC2
    }
}

/// Two byte slices hold the same bytes.
pub fn bytes_eq(a: &[u8], b: &[u8]) -> (r: bool)
    ensures
        r == (a@ == b@),
{
    if a.len() != b.len() {
        proof {
            assert(a@.len() != b@.len());
        }
        return false;
    }
    let mut i: usize = 0;
    while i < a.len()
        invariant
            a@.len() == b@.len(),
            0 <= i <= a@.len(),
            forall|j: int| 0 <= j < i ==> a@[j] == b@[j],
        decreases a@.len() - i,
    {
        if a[i] != b[i] {
            return false;
        }
        i = i + 1;
    }
    proof {
        assert(a@ =~= b@);
    }
    true
}

impl PartialEq for MUFrame {
    /// Two frames are equal when all their fields agree.
    fn eq(&self, other: &Self) -> (r: bool) {
        let fields_eq = self.prefix == other.prefix && self.length == other.length && self.opcode
            == other.opcode && self.crc == other.crc && self.suffix == other.suffix;
        let data_eq = bytes_eq(self.data.as_slice(), other.data.as_slice());
        fields_eq && data_eq
    }
}

impl vstd::std_specs::cmp::PartialEqSpecImpl for MUFrame {
    open spec fn obeys_eq_spec() -> bool {
        true
    }

    open spec fn eq_spec(&self, other: &Self) -> bool {
        &&& self.prefix == other.prefix
        &&& self.length == other.length
        &&& self.opcode == other.opcode
        &&& self.data@ == other.data@
        &&& self.crc == other.crc
        &&& self.suffix == other.suffix
    }
}

/// Round trip of the codec: the wire bytes of any valid payload pass every
/// validity check and decode back to exactly the opcode and the payload they
/// were built from.
pub proof fn lemma_frame_round_trip(opcode: u8, payload: Seq<u8>)
    requires
        valid_payload(payload),
    ensures
        frame_bytes(opcode, payload).len() == 5 + payload.len(),
        wire_valid(frame_bytes(opcode, payload)),
        spec_decode(frame_bytes(opcode, payload)) == Ok::<(u8, Seq<u8>), FrameDecodeError>(
            (opcode, payload),
        ),
{
    let b = frame_bytes(opcode, payload);
    assert(b.len() == 5 + payload.len());
    assert(b[1] == payload.len() as u8);
    assert(wire_length(b) == payload.len());
    assert(wire_payload(b) =~= payload);
    assert(b[3 + wire_length(b)] == frame_checksum(opcode, payload));
    assert(b[4 + wire_length(b)] == SYNC2);
    assert(wire_valid(b));
}

/// Corrupting the first byte of an encoded frame to anything but the start
/// sentinel is always reported as `BadPrefix`, whatever the payload.
pub proof fn lemma_corrupt_prefix_detected(opcode: u8, payload: Seq<u8>, c: u8)
    requires
        valid_payload(payload),
        c != SYNC1,
    ensures
        spec_decode(frame_bytes(opcode, payload).update(0, c)) == Err::<
            (u8, Seq<u8>),
            FrameDecodeError,
        >(FrameDecodeError::BadPrefix),
{
    let b = frame_bytes(opcode, payload);
    let t = b.update(0, c);
    lemma_frame_round_trip(opcode, payload);
    assert(t.len() == b.len());
    assert(t[1] == b[1]);
    assert(wire_size_ok(t));
    assert(!wire_prefix_ok(t));
}

/// Corrupting the last byte of an encoded frame to anything but the end
/// sentinel is always reported as `BadPostfix`, whatever the payload.
pub proof fn lemma_corrupt_postfix_detected(opcode: u8, payload: Seq<u8>, c: u8)
    requires
        valid_payload(payload),
        c != SYNC2,
    ensures
        spec_decode(frame_bytes(opcode, payload).update(frame_bytes(opcode, payload).len() - 1, c))
            == Err::<(u8, Seq<u8>), FrameDecodeError>(FrameDecodeError::BadPostfix),
{
    let b = frame_bytes(opcode, payload);
    let t = b.update(b.len() - 1, c);
    lemma_frame_round_trip(opcode, payload);
    assert(t.len() == b.len());
    assert(t[1] == b[1]);
    assert(wire_size_ok(t));
    assert(t[0] == b[0]);
    assert(wire_prefix_ok(t));
    assert(t[4 + wire_length(t)] == c);
    assert(!wire_postfix_ok(t));
}

/// Tampering inside the checksummed region (the opcode or a payload byte) of
/// a valid wire buffer is reported as `BadCRC` whenever it changes the
/// recomputed checksum. Whether a given single-bit flip changes a
/// CRC-8/NRSC-5 checksum is a property of that algorithm, outside what this
/// model states of it.
pub proof fn lemma_tamper_in_checksummed_region(b: Seq<u8>, i: int, c: u8)
    requires
        wire_valid(b),
        2 <= i < 3 + wire_length(b),
        frame_checksum(b.update(i, c)[2], wire_payload(b.update(i, c))) != b[3 + wire_length(b)],
    ensures
        spec_decode(b.update(i, c)) == Err::<(u8, Seq<u8>), FrameDecodeError>(
            FrameDecodeError::BadCRC,
        ),
{
    let t = b.update(i, c);
    assert(t.len() == b.len());
    assert(t[1] == b[1]);
    assert(wire_size_ok(t));
    assert(t[0] == b[0]);
    assert(t[4 + wire_length(t)] == b[4 + wire_length(b)]);
    assert(t[3 + wire_length(t)] == b[3 + wire_length(b)]);
    assert(!wire_crc_ok(t));
}

} // verus!
