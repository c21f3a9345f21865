//! CS 104 APCI framing: the start byte, the length, the four control bytes
//! and, for I-frames, the ASDU.
use bytes::{Bytes, BytesMut};
use vstd::prelude::*;

use crate::error::FrameError;
use crate::wire::{
    bytes_len, bytes_mut_advance, bytes_mut_at, bytes_mut_len, bytes_mut_seq, bytes_mut_split_to,
    bytes_mut_with_capacity, bytes_seq, bytes_to_vec, extend_from_slice, freeze,
};

verus! {

pub const START_BYTE: u8 = 0x68;

pub const CONTROL_FIELD_SIZE: usize = 4;

pub const MAX_APDU_LENGTH: usize = 253;

/// U-frame function codes.
#[derive(Debug, Clone, Copy, PartialEq, Eq, Structural)]
pub enum UFunction {
    StartDtAct,
    StartDtCon,
    StopDtAct,
    StopDtCon,
    TestFrAct,
    TestFrCon,
}

impl UFunction {
    /// The first control byte of the U-frame.
    pub open spec fn code(self) -> u8 {
        match self {
            UFunction::StartDtAct => 0x07,
            UFunction::StartDtCon => 0x0B,
            UFunction::StopDtAct => 0x13,
            UFunction::StopDtCon => 0x23,
            UFunction::TestFrAct => 0x43,
            UFunction::TestFrCon => 0x83,
        }
    }

    /// The function that a first control byte names, if any.
    pub open spec fn from_code(b: u8) -> Option<UFunction> {
        if b == 0x07 {
            Some(UFunction::StartDtAct)
        } else if b == 0x0B {
            Some(UFunction::StartDtCon)
        } else if b == 0x13 {
            Some(UFunction::StopDtAct)
        } else if b == 0x23 {
            Some(UFunction::StopDtCon)
        } else if b == 0x43 {
            Some(UFunction::TestFrAct)
        } else if b == 0x83 {
            Some(UFunction::TestFrCon)
        } else {
            None
        }
    }

    pub fn to_byte(self) -> (r: u8)
        ensures
            r == self.code(),
    {
        match self {
            UFunction::StartDtAct => 0x07,
            UFunction::StartDtCon => 0x0B,
            UFunction::StopDtAct => 0x13,
            UFunction::StopDtCon => 0x23,
            UFunction::TestFrAct => 0x43,
            UFunction::TestFrCon => 0x83,
        }
    }

    pub fn from_byte(b: u8) -> (r: Option<Self>)
        ensures
            r == UFunction::from_code(b),
    {
        match b {
            0x07 => Some(UFunction::StartDtAct),
            0x0B => Some(UFunction::StartDtCon),
            0x13 => Some(UFunction::StopDtAct),
            0x23 => Some(UFunction::StopDtCon),
            0x43 => Some(UFunction::TestFrAct),
            0x83 => Some(UFunction::TestFrCon),
            _ => None,
        }
    }
}

/// Reading back the byte of a function gives the function; every such byte
/// has its two low bits set, as a U-frame's first control byte does.
pub proof fn lemma_u_function_roundtrip(f: UFunction)
    ensures
        UFunction::from_code(f.code()) == Some(f),
        f.code() % 4 == 3,
{
}

/// The procedure that a U-format function belongs to: STARTDT 0, STOPDT 1, TESTFR 2.
pub open spec fn u_procedure(f: UFunction) -> int {
    match f {
        UFunction::StartDtAct | UFunction::StartDtCon => 0,
        UFunction::StopDtAct | UFunction::StopDtCon => 1,
        UFunction::TestFrAct | UFunction::TestFrCon => 2,
    }
}

/// Whether a U-format function is the confirmation (con) of its procedure
/// rather than its activation (act).
pub open spec fn u_confirms(f: UFunction) -> bool {
    match f {
        UFunction::StartDtCon | UFunction::StopDtCon | UFunction::TestFrCon => true,
        _ => false,
    }
}

/// The first control byte of a U-format APDU (IEC 60870-5-104 5.3): bits 0
/// and 1 are set, and exactly one more bit names the function: bit
/// `2 + 2 * procedure` for the activation, the bit above it for the
/// confirmation (STARTDT bits 2/3, STOPDT bits 4/5, TESTFR bits 6/7). A byte
/// decodes to a function exactly when it is that function's byte.
pub proof fn lemma_u_function_wire_bits(f: UFunction, b: u8)
    ensures
        f.code() as int == 3 + 4 * (if u_procedure(f) == 0 {
            1int
        } else if u_procedure(f) == 1 {
            4
        } else {
            16
        }) * (if u_confirms(f) {
            2int
        } else {
            1
        }),
        UFunction::from_code(b) == Some(f) <==> b == f.code(),
{
}

/// APCI frame types used by IEC 60870-5-104.
#[derive(Debug, Clone, PartialEq, Eq)]
pub enum Apdu {
    /// Information transfer frame carrying an ASDU payload.
    I { send_seq: u16, recv_seq: u16, payload: Bytes },
    /// Supervisory frame acknowledging received I-frames.
    S { recv_seq: u16 },
    /// Unnumbered control frame.
    U(UFunction),
}

/// An APDU as a value, the payload as its bytes.
pub enum ApduView {
    I { send_seq: u16, recv_seq: u16, payload: Seq<u8> },
    S { recv_seq: u16 },
    U(UFunction),
}

impl View for Apdu {
    type V = ApduView;

    open spec fn view(&self) -> ApduView {
        match self {
            Apdu::I { send_seq, recv_seq, payload } => ApduView::I {
                send_seq: *send_seq,
                recv_seq: *recv_seq,
                payload: bytes_seq(*payload),
            },
            Apdu::S { recv_seq } => ApduView::S { recv_seq: *recv_seq },
            Apdu::U(f) => ApduView::U(*f),
        }
    }
}

/// The two control bytes of a sequence number: shifted left by one bit
/// (within 16 bits), low byte first.
pub open spec fn seq_bytes(n: u16) -> Seq<u8> {
    let s = (n * 2) % 65536;
    seq![(s % 256) as u8, (s / 256) as u8]
}

/// The sequence number in two control bytes: the 16-bit value shifted right by one.
pub open spec fn seq_of(lo: u8, hi: u8) -> u16 {
    ((lo + 256 * hi) / 2) as u16
}

/// The wire bytes of an APDU. The length byte of an I-frame is the control
/// field and payload length, modulo 256 (the low eight bits).
pub open spec fn apdu_bytes(a: ApduView) -> Seq<u8> {
    match a {
        ApduView::I { send_seq, recv_seq, payload } => seq![
            START_BYTE,
            ((4 + payload.len()) % 256) as u8,
        ] + seq_bytes(send_seq) + seq_bytes(recv_seq) + payload,
        ApduView::S { recv_seq } => seq![START_BYTE, 0x04u8, 0x01u8, 0x00u8] + seq_bytes(recv_seq),
        ApduView::U(f) => seq![START_BYTE, 0x04u8, f.code(), 0x00u8, 0x00u8, 0x00u8],
    }
}

/// What parsing the front of a receive buffer holding `s` gives: a frame, no
/// frame yet (`Ok(None)`, nothing taken), or an error; and how many bytes
/// are taken from the front.
pub open spec fn frame_parse(s: Seq<u8>) -> (Result<Option<ApduView>, FrameError>, int) {
    if s.len() < 2 {
        (Ok(None), 0)
    } else if s[0] != START_BYTE {
        (Err(FrameError::InvalidStartByte(s[0])), 1)
    } else if s[1] < CONTROL_FIELD_SIZE {
        (Err(FrameError::LengthTooShort(s[1] as usize)), 2)
    } else if s[1] > MAX_APDU_LENGTH {
        (Err(FrameError::LengthExceeded { length: s[1] as usize, max: MAX_APDU_LENGTH }), 2)
    } else if s.len() < 2 + s[1] {
        (Ok(None), 0)
    } else {
        let length = s[1] as int;
        let cf1 = s[2];
        if cf1 % 2 == 0 {
            (
                Ok(
                    Some(
                        ApduView::I {
                            send_seq: seq_of(s[2], s[3]),
                            recv_seq: seq_of(s[4], s[5]),
                            payload: s.subrange(6, 2 + length),
                        },
                    ),
                ),
                2 + length,
            )
        } else if cf1 % 4 == 1 {
            (Ok(Some(ApduView::S { recv_seq: seq_of(s[4], s[5]) })), 2 + length)
        } else {
            match UFunction::from_code(cf1) {
                Some(f) => (Ok(Some(ApduView::U(f))), 2 + length),
                None => (Err(FrameError::UnknownUFunction(cf1)), 2),
            }
        }
    }
}

/// Whether a parse outcome is the given one; an I/O error is never one.
pub open spec fn parse_matches(r: Result<Option<Apdu>, FrameError>, expected: Result<Option<ApduView>, FrameError>) -> bool {
    match (r, expected) {
        (Ok(Some(a)), Ok(Some(b))) => a@ == b,
        (Ok(None), Ok(None)) => true,
        (Err(e1), Err(e2)) => e1 == e2,
        _ => false,
    }
}

/// An APDU that its encoding carries in full: sequence numbers below 2^15,
/// and an I-frame payload that fits the length byte (at most 249 bytes).
pub open spec fn apdu_canonical(a: ApduView) -> bool {
    match a {
        ApduView::I { send_seq, recv_seq, payload } => send_seq < 32768 && recv_seq < 32768
            && payload.len() <= 249,
        ApduView::S { recv_seq } => recv_seq < 32768,
        ApduView::U(_) => true,
    }
}

/// The wire layout of an APDU (IEC 60870-5-104 5.1-5.3): the start byte
/// 0x68, the length of the rest, and four control bytes. An I-frame has bit 0
/// of the first control byte clear, the send sequence number shifted up one
/// bit in control bytes 1-2 and the receive sequence number likewise in
/// bytes 3-4 (low byte first), then the ASDU. An S-frame has first control
/// bytes 0x01, 0x00 and the shifted receive sequence number. A U-frame has
/// its function byte and three zero bytes.
pub proof fn lemma_apdu_wire_layout(a: ApduView)
    ensures
        apdu_bytes(a)[0] == 0x68,
        match a {
            ApduView::I { send_seq, recv_seq, payload } => {
                &&& apdu_bytes(a).len() == 6 + payload.len()
                &&& apdu_bytes(a)[1] as int == (4 + payload.len()) % 256
                &&& apdu_bytes(a)[2] % 2 == 0
                &&& apdu_bytes(a)[2] as int + 256 * apdu_bytes(a)[3] as int == (2 * send_seq) % 65536
                &&& apdu_bytes(a)[4] as int + 256 * apdu_bytes(a)[5] as int == (2 * recv_seq) % 65536
                &&& apdu_bytes(a).subrange(6, apdu_bytes(a).len() as int) == payload
            },
            ApduView::S { recv_seq } => {
                &&& apdu_bytes(a).len() == 6
                &&& apdu_bytes(a)[1] == 4 && apdu_bytes(a)[2] == 1 && apdu_bytes(a)[3] == 0
                &&& apdu_bytes(a)[4] as int + 256 * apdu_bytes(a)[5] as int == (2 * recv_seq) % 65536
            },
            ApduView::U(f) => apdu_bytes(a) == seq![0x68u8, 4u8, f.code(), 0u8, 0u8, 0u8],
        },
{
    match a {
        ApduView::I { send_seq, recv_seq, payload } => {
            let b = apdu_bytes(a);
            assert(b.subrange(6, b.len() as int) =~= payload);
        },
        _ => {},
    }
}

/// The two control bytes of a sequence number below 2^15 read back as it.
proof fn lemma_seq_roundtrip(n: u16)
    requires
        n < 32768,
    ensures
        seq_bytes(n).len() == 2,
        seq_of(seq_bytes(n)[0], seq_bytes(n)[1]) == n,
        seq_bytes(n)[0] % 2 == 0,
{
}

/// Parsing the bytes of a canonical APDU, followed by anything, gives the
/// APDU back and takes exactly its bytes.
pub proof fn lemma_frame_roundtrip(a: ApduView, rest: Seq<u8>)
    requires
        apdu_canonical(a),
    ensures
        frame_parse(apdu_bytes(a) + rest) == (
            Ok::<Option<ApduView>, FrameError>(Some(a)),
            apdu_bytes(a).len() as int,
        ),
{
    let s = apdu_bytes(a) + rest;
    match a {
        ApduView::I { send_seq, recv_seq, payload } => {
            lemma_seq_roundtrip(send_seq);
            lemma_seq_roundtrip(recv_seq);
            assert(s[2] == seq_bytes(send_seq)[0]);
            assert(s[3] == seq_bytes(send_seq)[1]);
            assert(s[4] == seq_bytes(recv_seq)[0]);
            assert(s[5] == seq_bytes(recv_seq)[1]);
            assert(s.subrange(6, 6 + payload.len() as int) =~= payload);
        },
        ApduView::S { recv_seq } => {
            lemma_seq_roundtrip(recv_seq);
            assert(s[4] == seq_bytes(recv_seq)[0]);
            assert(s[5] == seq_bytes(recv_seq)[1]);
        },
        ApduView::U(f) => {
            lemma_u_function_roundtrip(f);
        },
    }
}

/// A frame that is not complete yet parses as nothing, and nothing is taken:
/// every proper prefix of the bytes of a canonical APDU of at least two bytes.
pub proof fn lemma_partial_frame(a: ApduView, k: int)
    requires
        apdu_canonical(a),
        2 <= k < apdu_bytes(a).len(),
    ensures
        frame_parse(apdu_bytes(a).subrange(0, k)) == (Ok::<Option<ApduView>, FrameError>(None), 0int),
{
    let s = apdu_bytes(a).subrange(0, k);
    assert(s[0] == apdu_bytes(a)[0]);
    assert(s[1] == apdu_bytes(a)[1]);
}

/// The bytes that sending an APDU writes.
pub fn encode_apdu(apdu: &Apdu) -> (r: Vec<u8>)
    requires
        apdu matches Apdu::I { payload, .. } ==> bytes_seq(*payload).len() + 6 <= usize::MAX,
    ensures
        r@ == apdu_bytes(apdu@),
{
    match apdu {
        Apdu::I { send_seq, recv_seq, payload } => {
            let length = CONTROL_FIELD_SIZE + bytes_len(payload);
            let mut out: Vec<u8> = Vec::new();
            out.push(START_BYTE);
            out.push((length % 256) as u8);
            let s: u16 = ((*send_seq as u32 * 2) % 65536) as u16;
            out.push((s % 256) as u8);
            out.push((s / 256) as u8);
            let r: u16 = ((*recv_seq as u32 * 2) % 65536) as u16;
            out.push((r % 256) as u8);
            out.push((r / 256) as u8);
            let data = bytes_to_vec(payload);
            let ghost head = out@;
            let mut i: usize = 0;
            while i < data.len()
                invariant
                    i <= data.len(),
                    out@ == head + data@.subrange(0, i as int),
                decreases data.len() - i,
            {
                out.push(data[i]);
                assert(out@ =~= head + data@.subrange(0, i + 1));
                i = i + 1;
            }
            assert(out@ =~= apdu_bytes(apdu@));
            out
        },
        Apdu::S { recv_seq } => {
            let r: u16 = ((*recv_seq as u32 * 2) % 65536) as u16;
            let out = vec![START_BYTE, 0x04, 0x01, 0x00, (r % 256) as u8, (r / 256) as u8];
            assert(out@ =~= apdu_bytes(apdu@));
            out
        },
        Apdu::U(func) => {
            let out = vec![START_BYTE, 0x04, func.to_byte(), 0x00, 0x00, 0x00];
            assert(out@ =~= apdu_bytes(apdu@));
            out
        },
    }
}

/// Incremental APCI frame parser with a pre-allocated buffer.
///
/// Accumulates bytes from the transport and yields complete [`Apdu`] frames.
/// Avoids per-frame allocation by reusing an internal `BytesMut`.
pub struct FrameReader {
    buf: BytesMut,
}

impl View for FrameReader {
    type V = Seq<u8>;

    /// The bytes received and not yet parsed.
    closed spec fn view(&self) -> Seq<u8> {
        bytes_mut_seq(self.buf)
    }
}

impl FrameReader {
    /// Create a new reader with a pre-allocated buffer.
    pub fn new() -> (r: Self)
        ensures
            r@ == Seq::<u8>::empty(),
    {
        // 2 (header) + MAX_APDU_LENGTH is the largest possible frame
        FrameReader { buf: bytes_mut_with_capacity(2 + MAX_APDU_LENGTH) }
    }

    /// Appends bytes received from the transport.
    pub fn push_bytes(&mut self, data: &[u8])
        requires
            old(self)@.len() + data@.len() <= crate::wire::bytes_mut_max_len(),
        ensures
            final(self)@ == old(self)@ + data@,
    {
        extend_from_slice(&mut self.buf, data);
    }

    /// The number of bytes received and not yet parsed.
    pub fn buffered_len(&self) -> (r: usize)
        ensures
            r == self@.len(),
    {
        bytes_mut_len(&self.buf)
    }

    /// Try to parse one complete APDU from the buffer.
    ///
    /// Returns `Ok(None)` if there aren't enough bytes yet.
    pub fn try_parse(&mut self) -> (r: Result<Option<Apdu>, FrameError>)
        ensures
            parse_matches(r, frame_parse(old(self)@).0),
            final(self)@ == old(self)@.subrange(frame_parse(old(self)@).1, old(self)@.len() as int),
    {
        let ghost s = self@;
        let have = bytes_mut_len(&self.buf);
        if have < 2 {
            assert(s.subrange(0, s.len() as int) =~= s);
            return Ok(None);
        }
        let start = bytes_mut_at(&self.buf, 0);
        if start != START_BYTE {
            // Consume the bad byte and report the error
            bytes_mut_advance(&mut self.buf, 1);
            return Err(FrameError::InvalidStartByte(start));
        }
        let length = bytes_mut_at(&self.buf, 1) as usize;
        if length < CONTROL_FIELD_SIZE {
            // Consume both header bytes
            bytes_mut_advance(&mut self.buf, 2);
            return Err(FrameError::LengthTooShort(length));
        }
        if length > MAX_APDU_LENGTH {
            bytes_mut_advance(&mut self.buf, 2);
            return Err(FrameError::LengthExceeded { length, max: MAX_APDU_LENGTH });
        }
        // Check if we have the full frame body

        let frame_size = 2 + length;
        if have < frame_size {
            assert(s.subrange(0, s.len() as int) =~= s);
            return Ok(None);
        }
        // Consume header

        bytes_mut_advance(&mut self.buf, 2);
        // Parse control field
        let cf1 = bytes_mut_at(&self.buf, 0);
        let cf2 = bytes_mut_at(&self.buf, 1);
        let cf3 = bytes_mut_at(&self.buf, 2);
        let cf4 = bytes_mut_at(&self.buf, 3);
        let apdu = if cf1 % 2 == 0 {
            // I-frame
            let send_seq = ((cf1 as u16 + 256 * cf2 as u16) / 2) as u16;
            let recv_seq = ((cf3 as u16 + 256 * cf4 as u16) / 2) as u16;
            bytes_mut_advance(&mut self.buf, CONTROL_FIELD_SIZE);
            let payload = freeze(bytes_mut_split_to(&mut self.buf, length - CONTROL_FIELD_SIZE));
            assert(bytes_seq(payload) =~= s.subrange(6, 2 + length));
            assert(self@ =~= s.subrange(2 + length, s.len() as int));
            Apdu::I { send_seq, recv_seq, payload }
        } else if cf1 % 4 == 1 {
            // S-frame
            let recv_seq = ((cf3 as u16 + 256 * cf4 as u16) / 2) as u16;
            bytes_mut_advance(&mut self.buf, length);
            assert(self@ =~= s.subrange(2 + length, s.len() as int));
            Apdu::S { recv_seq }
        } else {
            // U-frame
            let func = match UFunction::from_byte(cf1) {
                Some(f) => f,
                None => {
                    return Err(FrameError::UnknownUFunction(cf1));
                },
            };
            bytes_mut_advance(&mut self.buf, length);
            assert(self@ =~= s.subrange(2 + length, s.len() as int));
            Apdu::U(func)
        };
        Ok(Some(apdu))
    }
}

impl Default for FrameReader {
    fn default() -> (r: Self)
        ensures
            r@ == Seq::<u8>::empty(),
    {
        FrameReader::new()
    }
}

} // verus!
