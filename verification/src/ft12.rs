//! CS 101 FT 1.2 link layer framing: the single acknowledgment, the fixed
//! frame and the variable frame, each with its checksum.
use bytes::{Bytes, BytesMut};
use vstd::prelude::*;

use crate::error::LinkError;
use crate::wire::{
    bytes_len, bytes_mut_advance, bytes_mut_at, bytes_mut_len, bytes_mut_seq, bytes_mut_split_to,
    bytes_mut_with_capacity, bytes_seq, bytes_to_vec, extend_from_slice, freeze,
};

verus! {

pub const START_FIXED: u8 = 0x10;

pub const START_VARIABLE: u8 = 0x68;

pub const END_BYTE: u8 = 0x16;

pub const SINGLE_ACK: u8 = 0xE5;

/// Maximum user data length in a variable-length FT 1.2 frame.
///
/// The L field is a single byte encoding the count of CF + ADDR + DATA bytes.
/// Per IEC 60870-5-2, the maximum value of L is 253.
pub const MAX_USER_DATA_LENGTH: usize = 253;

/// Link layer address (1 or 2 bytes depending on configuration).
#[derive(Debug, Clone, Copy, PartialEq, Eq, Hash, Structural)]
pub struct LinkAddress(pub u16);

impl From<u8> for LinkAddress {
    fn from(v: u8) -> (r: Self) {
        LinkAddress(v as u16)
    }
}

impl vstd::std_specs::convert::FromSpecImpl<u8> for LinkAddress {
    open spec fn obeys_from_spec() -> bool {
        true
    }

    open spec fn from_spec(v: u8) -> LinkAddress {
        LinkAddress(v as u16)
    }
}

impl From<u16> for LinkAddress {
    fn from(v: u16) -> (r: Self) {
        LinkAddress(v)
    }
}

impl vstd::std_specs::convert::FromSpecImpl<u16> for LinkAddress {
    open spec fn obeys_from_spec() -> bool {
        true
    }

    open spec fn from_spec(v: u16) -> LinkAddress {
        LinkAddress(v)
    }
}

/// Primary station function codes (PRM=1).
#[derive(Debug, Clone, Copy, PartialEq, Eq, Structural)]
pub enum PrimaryFunction {
    /// FC=0: Reset of remote link.
    ResetLink,
    /// FC=3: Send/Confirm — user data with confirmation.
    SendConfirm,
    /// FC=9: Request status of link.
    RequestLinkStatus,
    /// FC=10: Request user data class 1 (high priority).
    RequestClass1,
    /// FC=11: Request user data class 2 (low priority).
    RequestClass2,
}

impl PrimaryFunction {
    /// The function code.
    pub open spec fn code(self) -> u8 {
        match self {
            PrimaryFunction::ResetLink => 0,
            PrimaryFunction::SendConfirm => 3,
            PrimaryFunction::RequestLinkStatus => 9,
            PrimaryFunction::RequestClass1 => 10,
            PrimaryFunction::RequestClass2 => 11,
        }
    }

    /// The function that a code names, or the error for an unknown code.
    pub open spec fn from_code(v: u8) -> Result<PrimaryFunction, LinkError> {
        if v == 0 {
            Ok(PrimaryFunction::ResetLink)
        } else if v == 3 {
            Ok(PrimaryFunction::SendConfirm)
        } else if v == 9 {
            Ok(PrimaryFunction::RequestLinkStatus)
        } else if v == 10 {
            Ok(PrimaryFunction::RequestClass1)
        } else if v == 11 {
            Ok(PrimaryFunction::RequestClass2)
        } else {
            Err(LinkError::UnknownPrimaryFunction(v))
        }
    }

    /// The function code.
    pub fn as_u8(self) -> (r: u8)
        ensures
            r == self.code(),
    {
        match self {
            PrimaryFunction::ResetLink => 0,
            PrimaryFunction::SendConfirm => 3,
            PrimaryFunction::RequestLinkStatus => 9,
            PrimaryFunction::RequestClass1 => 10,
            PrimaryFunction::RequestClass2 => 11,
        }
    }

    pub fn from_u8(v: u8) -> (r: Result<Self, LinkError>)
        ensures
            r == PrimaryFunction::from_code(v),
    {
        match v {
            0 => Ok(PrimaryFunction::ResetLink),
            3 => Ok(PrimaryFunction::SendConfirm),
            9 => Ok(PrimaryFunction::RequestLinkStatus),
            10 => Ok(PrimaryFunction::RequestClass1),
            11 => Ok(PrimaryFunction::RequestClass2),
            _ => Err(LinkError::UnknownPrimaryFunction(v)),
        }
    }
}

/// Secondary station function codes (PRM=0).
#[derive(Debug, Clone, Copy, PartialEq, Eq, Structural)]
pub enum SecondaryFunction {
    /// FC=0: Acknowledgment (positive confirm).
    Ack,
    /// FC=1: Nack (negative acknowledgment).
    Nack,
    /// FC=8: User data — response with ASDU.
    UserData,
    /// FC=9: No data — response without ASDU.
    NoData,
    /// FC=11: Status of link / access demand.
    LinkStatus,
}

impl SecondaryFunction {
    /// The function code.
    pub open spec fn code(self) -> u8 {
        match self {
            SecondaryFunction::Ack => 0,
            SecondaryFunction::Nack => 1,
            SecondaryFunction::UserData => 8,
            SecondaryFunction::NoData => 9,
            SecondaryFunction::LinkStatus => 11,
        }
    }

    /// The function that a code names, or the error for an unknown code.
    pub open spec fn from_code(v: u8) -> Result<SecondaryFunction, LinkError> {
        if v == 0 {
            Ok(SecondaryFunction::Ack)
        } else if v == 1 {
            Ok(SecondaryFunction::Nack)
        } else if v == 8 {
            Ok(SecondaryFunction::UserData)
        } else if v == 9 {
            Ok(SecondaryFunction::NoData)
        } else if v == 11 {
            Ok(SecondaryFunction::LinkStatus)
        } else {
            Err(LinkError::UnknownSecondaryFunction(v))
        }
    }

    /// The function code.
    pub fn as_u8(self) -> (r: u8)
        ensures
            r == self.code(),
    {
        match self {
            SecondaryFunction::Ack => 0,
            SecondaryFunction::Nack => 1,
            SecondaryFunction::UserData => 8,
            SecondaryFunction::NoData => 9,
            SecondaryFunction::LinkStatus => 11,
        }
    }

    pub fn from_u8(v: u8) -> (r: Result<Self, LinkError>)
        ensures
            r == SecondaryFunction::from_code(v),
    {
        match v {
            0 => Ok(SecondaryFunction::Ack),
            1 => Ok(SecondaryFunction::Nack),
            8 => Ok(SecondaryFunction::UserData),
            9 => Ok(SecondaryFunction::NoData),
            11 => Ok(SecondaryFunction::LinkStatus),
            _ => Err(LinkError::UnknownSecondaryFunction(v)),
        }
    }
}

/// FT 1.2 control field.
///
/// The control byte encodes direction (PRM), toggle bits (FCB/FCV or ACD/DFC),
/// and function code.
#[derive(Debug, Clone, Copy, PartialEq, Eq, Structural)]
pub enum ControlField {
    /// Primary message (PRM=1): master → slave.
    Primary {
        /// Frame count bit — toggled after each successful confirmed exchange.
        fcb: bool,
        /// Frame count valid — indicates FCB should be evaluated.
        fcv: bool,
        /// Function code.
        function: PrimaryFunction,
    },
    /// Secondary message (PRM=0): slave → master.
    Secondary {
        /// Access demand — slave has class 1 data available.
        acd: bool,
        /// Data flow control — slave cannot accept further data.
        dfc: bool,
        /// Function code.
        function: SecondaryFunction,
    },
}

/// Bit `mask` where `flag` holds, else nothing.
pub open spec fn bit_if(flag: bool, mask: u8) -> u8 {
    if flag {
        mask
    } else {
        0
    }
}

/// The control byte: PRM in bit 6, FCB/ACD in bit 5, FCV/DFC in bit 4, and
/// the function code below.
pub open spec fn control_byte(c: ControlField) -> u8 {
    match c {
        ControlField::Primary { fcb, fcv, function } => 0x40u8 | bit_if(fcb, 0x20) | bit_if(fcv, 0x10)
            | function.code(),
        ControlField::Secondary { acd, dfc, function } => 0x00u8 | bit_if(acd, 0x20) | bit_if(dfc, 0x10)
            | function.code(),
    }
}

/// The control field that a byte holds, or the error for an unknown function code.
pub open spec fn control_from_byte(b: u8) -> Result<ControlField, LinkError> {
    let fc = b & 0x0F;
    if b & 0x40 != 0 {
        match PrimaryFunction::from_code(fc) {
            Ok(function) => Ok(ControlField::Primary { fcb: b & 0x20 != 0, fcv: b & 0x10 != 0, function }),
            Err(e) => Err(e),
        }
    } else {
        match SecondaryFunction::from_code(fc) {
            Ok(function) => Ok(ControlField::Secondary { acd: b & 0x20 != 0, dfc: b & 0x10 != 0, function }),
            Err(e) => Err(e),
        }
    }
}

impl ControlField {
    /// Encode the control field into a single byte.
    pub fn to_byte(self) -> (r: u8)
        ensures
            r == control_byte(self),
    {
        match self {
            ControlField::Primary { fcb, fcv, function } => {
                let mut b: u8 = 0x40;  // PRM=1 (bit 6)
                if fcb {
                    b = b | 0x20;  // FCB (bit 5)
                }
                if fcv {
                    b = b | 0x10;  // FCV (bit 4)
                }
                let fc = function.as_u8();
                assert(b | fc == 0x40u8 | bit_if(fcb, 0x20) | bit_if(fcv, 0x10) | fc) by (bit_vector)
                    requires
                        b == (if fcv { (if fcb { 0x40u8 | 0x20u8 } else { 0x40u8 }) | 0x10u8 } else { (if fcb {
                            0x40u8 | 0x20u8
                        } else {
                            0x40u8
                        }) }),
                ;
                b | fc
            },
            ControlField::Secondary { acd, dfc, function } => {
                let mut b: u8 = 0x00;  // PRM=0
                if acd {
                    b = b | 0x20;  // ACD (bit 5)
                }
                if dfc {
                    b = b | 0x10;  // DFC (bit 4)
                }
                let fc = function.as_u8();
                assert(b | fc == 0x00u8 | bit_if(acd, 0x20) | bit_if(dfc, 0x10) | fc) by (bit_vector)
                    requires
                        b == (if dfc { (if acd { 0x00u8 | 0x20u8 } else { 0x00u8 }) | 0x10u8 } else { (if acd {
                            0x00u8 | 0x20u8
                        } else {
                            0x00u8
                        }) }),
                ;
                b | fc
            },
        }
    }

    /// Decode a control field from a single byte.
    pub fn from_byte(b: u8) -> (r: Result<Self, LinkError>)
        ensures
            r == control_from_byte(b),
    {
        let prm = b & 0x40 != 0;
        let fc = b & 0x0F;
        if prm {
            let function = PrimaryFunction::from_u8(fc)?;
            Ok(ControlField::Primary { fcb: b & 0x20 != 0, fcv: b & 0x10 != 0, function })
        } else {
            let function = SecondaryFunction::from_u8(fc)?;
            Ok(ControlField::Secondary { acd: b & 0x20 != 0, dfc: b & 0x10 != 0, function })
        }
    }
}

/// Decoding the byte of a control field gives it back.
pub proof fn lemma_control_roundtrip(c: ControlField)
    ensures
        control_from_byte(control_byte(c)) == Ok::<ControlField, LinkError>(c),
{
    let b = control_byte(c);
    match c {
        ControlField::Primary { fcb, fcv, function } => {
            let fc = function.code();
            assert(b & 0x40 != 0 && b & 0x0F == fc && (b & 0x20 != 0) == fcb && (b & 0x10 != 0) == fcv)
                by (bit_vector)
                requires
                    b == 0x40u8 | (if fcb { 0x20u8 } else { 0u8 }) | (if fcv { 0x10u8 } else { 0u8 }) | fc,
                    fc < 16,
            ;
        },
        ControlField::Secondary { acd, dfc, function } => {
            let fc = function.code();
            assert(b & 0x40 == 0 && b & 0x0F == fc && (b & 0x20 != 0) == acd && (b & 0x10 != 0) == dfc)
                by (bit_vector)
                requires
                    b == 0x00u8 | (if acd { 0x20u8 } else { 0u8 }) | (if dfc { 0x10u8 } else { 0u8 }) | fc,
                    fc < 16,
            ;
        },
    }
}

/// The function codes of IEC 60870-5-2 (FT 1.2): primary 0 reset of remote
/// link, 3 user data with confirmation, 9 request status of link, 10 and 11
/// request class 1 and class 2 data; secondary 0 ACK, 1 NACK, 8 user data,
/// 9 no data, 11 status of link. A code decodes to a function exactly when it
/// is that function's code.
pub proof fn lemma_link_function_numbers(p: PrimaryFunction, q: SecondaryFunction, v: u8)
    ensures
        p.code() as int == (match p {
            PrimaryFunction::ResetLink => 0int,
            PrimaryFunction::SendConfirm => 3int,
            PrimaryFunction::RequestLinkStatus => 9int,
            PrimaryFunction::RequestClass1 => 10int,
            PrimaryFunction::RequestClass2 => 11int,
        }),
        q.code() as int == (match q {
            SecondaryFunction::Ack => 0int,
            SecondaryFunction::Nack => 1int,
            SecondaryFunction::UserData => 8int,
            SecondaryFunction::NoData => 9int,
            SecondaryFunction::LinkStatus => 11int,
        }),
        PrimaryFunction::from_code(v) == Ok::<PrimaryFunction, LinkError>(p) <==> v == p.code(),
        SecondaryFunction::from_code(v) == Ok::<SecondaryFunction, LinkError>(q) <==> v == q.code(),
{
}

/// Three flag bits over a four-bit function code, as a number.
proof fn lemma_control_bits(hi: u8, a: bool, b: bool, fc: u8)
    by (bit_vector)
    requires
        hi == 0x40u8 || hi == 0u8,
        fc < 16,
    ensures
        (hi | (if a { 0x20u8 } else { 0u8 }) | (if b { 0x10u8 } else { 0u8 }) | fc) as int == hi as int + (if a {
            32int
        } else {
            0
        }) + (if b {
            16int
        } else {
            0
        }) + fc as int,
{
}

/// The control byte (IEC 60870-5-2): bit 6 (PRM) is set for a primary
/// message; bit 5 holds FCB or ACD and bit 4 FCV or DFC; bits 0-3 hold the
/// function code; bit 7 is clear.
pub proof fn lemma_control_byte_layout(c: ControlField)
    ensures
        control_byte(c) as int == (match c {
            ControlField::Primary { fcb, fcv, function } => 64 + (if fcb {
                32int
            } else {
                0
            }) + (if fcv {
                16int
            } else {
                0
            }) + function.code() as int,
            ControlField::Secondary { acd, dfc, function } => (if acd {
                32int
            } else {
                0
            }) + (if dfc {
                16int
            } else {
                0
            }) + function.code() as int,
        }),
{
    match c {
        ControlField::Primary { fcb, fcv, function } => lemma_control_bits(0x40u8, fcb, fcv, function.code()),
        ControlField::Secondary { acd, dfc, function } => lemma_control_bits(0u8, acd, dfc, function.code()),
    }
}

/// Decoding a control byte reads the same layout: bit 6 tells a primary from
/// a secondary message, bits 5 and 4 are FCB/ACD and FCV/DFC, and bits 0-3
/// must be a function code of that direction, else it is the error.
pub proof fn lemma_control_from_byte_layout(b: u8)
    ensures
        (b / 64) % 2 == 1 ==> control_from_byte(b) == (match PrimaryFunction::from_code(b % 16) {
            Ok(function) => Ok::<ControlField, LinkError>(
                ControlField::Primary { fcb: (b / 32) % 2 == 1, fcv: (b / 16) % 2 == 1, function },
            ),
            Err(_) => Err(LinkError::UnknownPrimaryFunction(b % 16)),
        }),
        (b / 64) % 2 == 0 ==> control_from_byte(b) == (match SecondaryFunction::from_code(b % 16) {
            Ok(function) => Ok::<ControlField, LinkError>(
                ControlField::Secondary { acd: (b / 32) % 2 == 1, dfc: (b / 16) % 2 == 1, function },
            ),
            Err(_) => Err(LinkError::UnknownSecondaryFunction(b % 16)),
        }),
{
    crate::wire::lemma_byte_bits(b);
}

/// The wire layout of an FT 1.2 frame: the single character 0xE5; a fixed
/// frame 0x10, control byte, address, checksum, 0x16; a variable frame 0x68,
/// L, L, 0x68, control byte, address, user data, checksum, 0x16, where L
/// counts control byte, address and data and the checksum is the sum of
/// those bytes modulo 256; the address is low byte first.
pub proof fn lemma_link_frame_layout(f: LinkFrameView, a: nat)
    requires
        1 <= a <= 2,
    ensures
        match f {
            LinkFrameView::SingleAck => link_frame_bytes(f, a) == seq![0xE5u8],
            LinkFrameView::Fixed { control, address } => {
                let body = seq![control_byte(control)] + address_bytes(address, a);
                link_frame_bytes(f, a) == seq![0x10u8] + body + seq![(byte_sum(body) % 256) as u8, 0x16u8]
            },
            LinkFrameView::Variable { control, address, data } => {
                let body = seq![control_byte(control)] + address_bytes(address, a) + data;
                let l = ((1 + a + data.len()) % 256) as u8;
                link_frame_bytes(f, a) == seq![0x68u8, l, l, 0x68u8] + body + seq![
                    (byte_sum(body) % 256) as u8,
                    0x16u8,
                ]
            },
        },
{
}

/// A link address goes on the wire low byte first: one byte where the
/// address size is 1, two where it is 2.
pub proof fn lemma_address_bytes_layout(x: LinkAddress, a: nat)
    requires
        1 <= a <= 2,
    ensures
        address_bytes(x, a).len() == a,
        address_bytes(x, a)[0] as int == x.0 % 256,
        a == 2 ==> address_bytes(x, a)[1] as int == x.0 / 256,
{
}

/// FT 1.2 link-layer frame.
#[derive(Debug, Clone, PartialEq, Eq)]
pub enum LinkFrame {
    /// Fixed-length frame: `0x10, CF, ADDR, CS, 0x16`.
    Fixed { control: ControlField, address: LinkAddress },
    /// Variable-length frame: `0x68, L, L, 0x68, CF, ADDR, DATA..., CS, 0x16`.
    Variable {
        control: ControlField,
        address: LinkAddress,
        /// User data (ASDU payload).
        data: Bytes,
    },
    /// Single-character acknowledgment: `0xE5`.
    SingleAck,
}

/// A link frame as a value, the user data as its bytes.
pub enum LinkFrameView {
    Fixed { control: ControlField, address: LinkAddress },
    Variable { control: ControlField, address: LinkAddress, data: Seq<u8> },
    SingleAck,
}

impl View for LinkFrame {
    type V = LinkFrameView;

    open spec fn view(&self) -> LinkFrameView {
        match self {
            LinkFrame::Fixed { control, address } => LinkFrameView::Fixed {
                control: *control,
                address: *address,
            },
            LinkFrame::Variable { control, address, data } => LinkFrameView::Variable {
                control: *control,
                address: *address,
                data: bytes_seq(*data),
            },
            LinkFrame::SingleAck => LinkFrameView::SingleAck,
        }
    }
}

/// The sum of the bytes.
pub open spec fn byte_sum(s: Seq<u8>) -> nat
    decreases s.len(),
{
    if s.len() == 0 {
        0
    } else {
        (byte_sum(s.drop_last()) + s.last()) as nat
    }
}

/// The FT 1.2 checksum: the sum of the bytes modulo 256.
pub open spec fn checksum_of(s: Seq<u8>) -> u8 {
    (byte_sum(s) % 256) as u8
}

/// Adding one more byte to a running checksum.
proof fn lemma_checksum_step(s: Seq<u8>, i: int, acc: u8)
    requires
        0 <= i < s.len(),
        acc == checksum_of(s.subrange(0, i)),
    ensures
        ((acc + s[i]) % 256) as u8 == checksum_of(s.subrange(0, i + 1)),
{
    assert(s.subrange(0, i + 1).drop_last() =~= s.subrange(0, i));
}

/// Compute FT 1.2 checksum: sum of bytes mod 256.
pub fn checksum(data: &[u8]) -> (r: u8)
    ensures
        r == checksum_of(data@),
{
    let mut acc: u8 = 0;
    let mut i: usize = 0;
    while i < data.len()
        invariant
            i <= data@.len(),
            acc == checksum_of(data@.subrange(0, i as int)),
        decreases data.len() - i,
    {
        proof {
            lemma_checksum_step(data@, i as int, acc);
        }
        acc = ((acc as u16 + data[i] as u16) % 256) as u8;
        i = i + 1;
    }
    assert(data@.subrange(0, data@.len() as int) =~= data@);
    acc
}

/// The checksum of bytes `from..to` of a receive buffer.
fn checksum_range(buf: &BytesMut, from: usize, to: usize) -> (r: u8)
    requires
        from <= to <= bytes_mut_seq(*buf).len(),
    ensures
        r == checksum_of(bytes_mut_seq(*buf).subrange(from as int, to as int)),
{
    let ghost s = bytes_mut_seq(*buf).subrange(from as int, to as int);
    let mut acc: u8 = 0;
    let mut i: usize = from;
    while i < to
        invariant
            from <= i <= to <= bytes_mut_seq(*buf).len(),
            s == bytes_mut_seq(*buf).subrange(from as int, to as int),
            acc == checksum_of(s.subrange(0, i - from)),
        decreases to - i,
    {
        proof {
            lemma_checksum_step(s, i - from, acc);
        }
        acc = ((acc as u16 + bytes_mut_at(buf, i) as u16) % 256) as u8;
        i = i + 1;
    }
    assert(s.subrange(0, s.len() as int) =~= s);
    acc
}

/// The address bytes: the low byte, and the high byte where the address has two.
pub open spec fn address_bytes(a: LinkAddress, addr_size: nat) -> Seq<u8> {
    if addr_size == 2 {
        seq![(a.0 % 256) as u8, (a.0 / 256) as u8]
    } else {
        seq![(a.0 % 256) as u8]
    }
}

/// The wire bytes of a frame. The L field of a variable frame counts the
/// control byte, `addr_size` address bytes and the data, modulo 256.
pub open spec fn link_frame_bytes(f: LinkFrameView, addr_size: nat) -> Seq<u8> {
    match f {
        LinkFrameView::SingleAck => seq![SINGLE_ACK],
        LinkFrameView::Fixed { control, address } => {
            let body = seq![control_byte(control)] + address_bytes(address, addr_size);
            seq![START_FIXED] + body + seq![checksum_of(body), END_BYTE]
        },
        LinkFrameView::Variable { control, address, data } => {
            let body = seq![control_byte(control)] + address_bytes(address, addr_size) + data;
            let l = ((1 + addr_size + data.len()) % 256) as u8;
            seq![START_VARIABLE, l, l, START_VARIABLE] + body + seq![checksum_of(body), END_BYTE]
        },
    }
}

/// The address that the bytes from `k` hold: one byte where the address has
/// one, else two, low byte first.
pub open spec fn address_at(s: Seq<u8>, k: int, addr_size: int) -> LinkAddress {
    if addr_size == 1 {
        LinkAddress(s[k] as u16)
    } else {
        LinkAddress((s[k] + 256 * s[k + 1]) as u16)
    }
}

/// What parsing a fixed frame from the front of `s` gives, and how many
/// bytes it takes. A bad end byte drops the start byte; a bad checksum drops
/// the frame; an unknown function code drops nothing.
pub open spec fn fixed_parse(s: Seq<u8>, a: int) -> (Result<Option<LinkFrameView>, LinkError>, int) {
    let fs = 4 + a;
    if s.len() < fs {
        (Ok(None), 0)
    } else if s[fs - 1] != END_BYTE {
        (Err(LinkError::InvalidEndByte(s[fs - 1])), 1)
    } else if s[2 + a] != checksum_of(s.subrange(1, 2 + a)) {
        (Err(LinkError::ChecksumMismatch { expected: checksum_of(s.subrange(1, 2 + a)), got: s[2 + a] }), fs)
    } else {
        match control_from_byte(s[1]) {
            Err(e) => (Err(e), 0),
            Ok(control) => (Ok(Some(LinkFrameView::Fixed { control, address: address_at(s, 2, a) })), fs),
        }
    }
}

/// What parsing a variable frame from the front of `s` gives, and how many
/// bytes it takes.
pub open spec fn variable_parse(s: Seq<u8>, a: int) -> (Result<Option<LinkFrameView>, LinkError>, int) {
    if s.len() < 4 {
        (Ok(None), 0)
    } else if s[1] != s[2] {
        (Err(LinkError::LengthMismatch { l1: s[1], l2: s[2] }), 1)
    } else if s[1] < 1 + a {
        (Err(LinkError::LengthTooShort(s[1] as usize)), 4)
    } else if s[1] > MAX_USER_DATA_LENGTH {
        (Err(LinkError::LengthExceeded(s[1] as usize)), 4)
    } else {
        let l = s[1] as int;
        let total = 6 + l;
        if s.len() < total {
            (Ok(None), 0)
        } else if s[3] != START_VARIABLE {
            (Err(LinkError::InvalidStartByte(s[3])), 1)
        } else if s[total - 1] != END_BYTE {
            (Err(LinkError::InvalidEndByte(s[total - 1])), 1)
        } else if s[4 + l] != checksum_of(s.subrange(4, 4 + l)) {
            (
                Err(LinkError::ChecksumMismatch { expected: checksum_of(s.subrange(4, 4 + l)), got: s[4 + l] }),
                total,
            )
        } else {
            match control_from_byte(s[4]) {
                Err(e) => (Err(e), 0),
                Ok(control) => (
                    Ok(
                        Some(
                            LinkFrameView::Variable {
                                control,
                                address: address_at(s, 5, a),
                                data: s.subrange(5 + a, 4 + l),
                            },
                        ),
                    ),
                    total,
                ),
            }
        }
    }
}

/// What parsing the front of a receive buffer holding `s` gives: a frame, no
/// frame yet (`Ok(None)`), or an error; and how many bytes are taken.
pub open spec fn link_parse(s: Seq<u8>, a: int) -> (Result<Option<LinkFrameView>, LinkError>, int) {
    if s.len() == 0 {
        (Ok(None), 0)
    } else if s[0] == SINGLE_ACK {
        (Ok(Some(LinkFrameView::SingleAck)), 1)
    } else if s[0] == START_FIXED {
        fixed_parse(s, a)
    } else if s[0] == START_VARIABLE {
        variable_parse(s, a)
    } else {
        (Err(LinkError::InvalidStartByte(s[0])), 1)
    }
}

/// Where the address would be read past the frame body: a zero-byte address
/// in a complete, well-formed variable frame whose L field is below 3. The
/// parser reads two address bytes there, beyond the body, and panics.
pub open spec fn address_beyond_body(s: Seq<u8>, a: int) -> bool {
    &&& a == 0
    &&& s.len() >= 4
    &&& s[0] == START_VARIABLE
    &&& s[1] == s[2]
    &&& 1 <= s[1] < 3
    &&& s.len() >= 6 + s[1]
    &&& s[3] == START_VARIABLE
    &&& s[5 + s[1]] == END_BYTE
    &&& s[4 + s[1]] == checksum_of(s.subrange(4, 4 + s[1]))
    &&& control_from_byte(s[4]) is Ok
}

/// Whether a parse outcome is the given one; an I/O error is never one.
pub open spec fn link_parse_matches(
    r: Result<Option<LinkFrame>, LinkError>,
    expected: Result<Option<LinkFrameView>, LinkError>,
) -> bool {
    match (r, expected) {
        (Ok(Some(f)), Ok(Some(g))) => f@ == g,
        (Ok(None), Ok(None)) => true,
        (Err(e1), Err(e2)) => e1 == e2,
        _ => false,
    }
}

/// A frame that its encoding carries in full with an address of `a` bytes
/// (1 or 2): an address that fits, and a variable frame's L field within 253.
pub open spec fn link_frame_canonical(f: LinkFrameView, a: nat) -> bool {
    &&& 1 <= a <= 2
    &&& match f {
        LinkFrameView::SingleAck => true,
        LinkFrameView::Fixed { address, .. } => a == 1 ==> address.0 < 256,
        LinkFrameView::Variable { address, data, .. } => (a == 1 ==> address.0 < 256) && 1 + a + data.len()
            <= MAX_USER_DATA_LENGTH,
    }
}

/// The address bytes read back as the address.
proof fn lemma_address_roundtrip(x: LinkAddress, a: nat, s: Seq<u8>, k: int)
    requires
        1 <= a <= 2,
        a == 1 ==> x.0 < 256,
        0 <= k,
        k + a <= s.len(),
        s.subrange(k, k + a as int) == address_bytes(x, a),
    ensures
        address_bytes(x, a).len() == a,
        address_at(s, k, a as int) == x,
{
    assert(s[k] == s.subrange(k, k + a as int)[0]);
    if a == 2 {
        assert(s[k + 1] == s.subrange(k, k + a as int)[1]);
    }
}

/// Parsing the bytes of a canonical frame, followed by anything, gives the
/// frame back and takes exactly its bytes.
pub proof fn lemma_link_frame_roundtrip(f: LinkFrameView, a: nat, rest: Seq<u8>)
    requires
        link_frame_canonical(f, a),
    ensures
        link_parse(link_frame_bytes(f, a) + rest, a as int) == (
            Ok::<Option<LinkFrameView>, LinkError>(Some(f)),
            link_frame_bytes(f, a).len() as int,
        ),
{
    let s = link_frame_bytes(f, a) + rest;
    match f {
        LinkFrameView::SingleAck => {},
        LinkFrameView::Fixed { control, address } => {
            lemma_control_roundtrip(control);
            let body = seq![control_byte(control)] + address_bytes(address, a);
            assert(s.subrange(1, 2 + a as int) =~= body);
            assert(s.subrange(2, 2 + a as int) =~= address_bytes(address, a));
            lemma_address_roundtrip(address, a, s, 2);
        },
        LinkFrameView::Variable { control, address, data } => {
            lemma_control_roundtrip(control);
            let body = seq![control_byte(control)] + address_bytes(address, a) + data;
            let l = (1 + a + data.len()) as int;
            assert(s.subrange(4, 4 + l) =~= body);
            assert(s.subrange(5, 5 + a as int) =~= address_bytes(address, a));
            lemma_address_roundtrip(address, a, s, 5);
            assert(s.subrange(5 + a as int, 4 + l) =~= data);
        },
    }
}

/// A frame that is not complete yet parses as nothing, and nothing is taken:
/// every nonempty proper prefix of the bytes of a canonical frame.
pub proof fn lemma_partial_link_frame(f: LinkFrameView, a: nat, k: int)
    requires
        link_frame_canonical(f, a),
        1 <= k < link_frame_bytes(f, a).len(),
    ensures
        link_parse(link_frame_bytes(f, a).subrange(0, k), a as int) == (
            Ok::<Option<LinkFrameView>, LinkError>(None),
            0int,
        ),
{
    let full = link_frame_bytes(f, a);
    let s = full.subrange(0, k);
    assert(s[0] == full[0]);
    if k >= 4 {
        assert(s[1] == full[1]);
        assert(s[2] == full[2]);
        assert(s[3] == full[3]);
    }
}

/// The bytes that sending a frame writes.
pub fn encode_link_frame(frame: &LinkFrame, link_addr_size: u8) -> (r: Vec<u8>)
    requires
        frame matches LinkFrame::Variable { data, .. } ==> bytes_seq(*data).len() + 512 <= usize::MAX,
    ensures
        r@ == link_frame_bytes(frame@, link_addr_size as nat),
{
    let addr_size = link_addr_size as usize;
    match frame {
        LinkFrame::SingleAck => {
            let out = vec![SINGLE_ACK];
            assert(out@ =~= link_frame_bytes(frame@, link_addr_size as nat));
            out
        },
        LinkFrame::Fixed { control, address } => {
            let mut body: Vec<u8> = Vec::new();
            body.push(control.to_byte());
            encode_address(*address, addr_size, &mut body);
            let cs = checksum(body.as_slice());
            let mut out: Vec<u8> = Vec::new();
            out.push(START_FIXED);
            append(&mut out, &body);
            out.push(cs);
            out.push(END_BYTE);
            assert(out@ =~= link_frame_bytes(frame@, link_addr_size as nat));
            out
        },
        LinkFrame::Variable { control, address, data } => {
            let payload = bytes_to_vec(data);
            let l = 1 + addr_size + payload.len();
            let mut body: Vec<u8> = Vec::new();
            body.push(control.to_byte());
            encode_address(*address, addr_size, &mut body);
            append(&mut body, &payload);
            let cs = checksum(body.as_slice());
            let mut out: Vec<u8> = Vec::new();
            out.push(START_VARIABLE);
            out.push((l % 256) as u8);
            out.push((l % 256) as u8);
            out.push(START_VARIABLE);
            append(&mut out, &body);
            out.push(cs);
            out.push(END_BYTE);
            assert(out@ =~= link_frame_bytes(frame@, link_addr_size as nat));
            out
        },
    }
}

/// Appends the bytes of `more`.
fn append(out: &mut Vec<u8>, more: &Vec<u8>)
    ensures
        final(out)@ == old(out)@ + more@,
{
    let mut i: usize = 0;
    while i < more.len()
        invariant
            i <= more@.len(),
            out@ == old(out)@ + more@.subrange(0, i as int),
        decreases more.len() - i,
    {
        out.push(more[i]);
        assert(out@ =~= old(out)@ + more@.subrange(0, i + 1));
        i = i + 1;
    }
    assert(more@.subrange(0, more@.len() as int) =~= more@);
}

/// Encode a link address into bytes.
fn encode_address(addr: LinkAddress, link_addr_size: usize, buf: &mut Vec<u8>)
    ensures
        final(buf)@ == old(buf)@ + address_bytes(addr, link_addr_size as nat),
{
    buf.push((addr.0 % 256) as u8);
    if link_addr_size == 2 {
        buf.push((addr.0 / 256) as u8);
    }
    assert(final(buf)@ =~= old(buf)@ + address_bytes(addr, link_addr_size as nat));
}

/// Incremental FT 1.2 frame parser with a pre-allocated buffer.
///
/// Accumulates bytes from the transport and yields complete [`LinkFrame`]s.
/// Avoids per-frame allocation by reusing an internal `BytesMut`.
pub struct LinkFrameParser {
    buf: BytesMut,
    addr_size: u8,
}

impl View for LinkFrameParser {
    type V = Seq<u8>;

    /// The bytes received and not yet parsed.
    closed spec fn view(&self) -> Seq<u8> {
        bytes_mut_seq(self.buf)
    }
}

impl LinkFrameParser {
    /// The number of address bytes that the parser reads.
    pub closed spec fn spec_addr_size(&self) -> nat {
        self.addr_size as nat
    }

    /// Create a new parser for the given link address size (1 or 2 bytes).
    pub fn new(link_addr_size: u8) -> (r: Self)
        ensures
            r@ == Seq::<u8>::empty(),
            r.spec_addr_size() == link_addr_size,
    {
        LinkFrameParser {
            buf: bytes_mut_with_capacity(4 + MAX_USER_DATA_LENGTH + 2),
            addr_size: link_addr_size,
        }
    }

    /// Appends bytes received from the transport.
    pub fn push_bytes(&mut self, data: &[u8])
        requires
            old(self)@.len() + data@.len() <= crate::wire::bytes_mut_max_len(),
        ensures
            final(self)@ == old(self)@ + data@,
            final(self).spec_addr_size() == old(self).spec_addr_size(),
    {
        extend_from_slice(&mut self.buf, data);
    }

    /// The number of bytes received and not yet parsed.
    pub fn buffered_len(&self) -> (r: usize)
        ensures
            r == self@.len(),
    {
        bytes_mut_len(&self.buf)
    }

    /// The number of address bytes that the parser reads.
    pub fn addr_size(&self) -> (r: usize)
        ensures
            r == self.spec_addr_size(),
    {
        self.addr_size as usize
    }

    /// Whether parsing now would read address bytes beyond the frame body
    /// (a zero-byte address with a short variable frame).
    pub fn reads_beyond_body(&self) -> (r: bool)
        ensures
            r == address_beyond_body(self@, self.spec_addr_size() as int),
    {
        if self.addr_size != 0 {
            return false;
        }
        let len = bytes_mut_len(&self.buf);
        if len < 4 || bytes_mut_at(&self.buf, 0) != START_VARIABLE {
            return false;
        }
        let l1 = bytes_mut_at(&self.buf, 1) as usize;
        if l1 != bytes_mut_at(&self.buf, 2) as usize || l1 < 1 || l1 >= 3 || len < 6 + l1 {
            return false;
        }
        if bytes_mut_at(&self.buf, 3) != START_VARIABLE || bytes_mut_at(&self.buf, 5 + l1) != END_BYTE {
            return false;
        }
        if bytes_mut_at(&self.buf, 4 + l1) != checksum_range(&self.buf, 4, 4 + l1) {
            return false;
        }
        ControlField::from_byte(bytes_mut_at(&self.buf, 4)).is_ok()
    }

    /// Try to parse one complete frame from the buffer.
    ///
    /// Returns `Ok(None)` if there aren't enough bytes yet.
    pub fn try_parse(&mut self) -> (r: Result<Option<LinkFrame>, LinkError>)
        requires
            !address_beyond_body(old(self)@, old(self).spec_addr_size() as int),
        ensures
            link_parse_matches(r, link_parse(old(self)@, old(self).spec_addr_size() as int).0),
            final(self)@ == old(self)@.subrange(
                link_parse(old(self)@, old(self).spec_addr_size() as int).1,
                old(self)@.len() as int,
            ),
            final(self).spec_addr_size() == old(self).spec_addr_size(),
    {
        let ghost s = self@;
        if bytes_mut_len(&self.buf) == 0 {
            assert(s.subrange(0, s.len() as int) =~= s);
            return Ok(None);
        }
        let first = bytes_mut_at(&self.buf, 0);
        if first == SINGLE_ACK {
            bytes_mut_advance(&mut self.buf, 1);
            Ok(Some(LinkFrame::SingleAck))
        } else if first == START_FIXED {
            self.try_parse_fixed()
        } else if first == START_VARIABLE {
            self.try_parse_variable()
        } else {
            bytes_mut_advance(&mut self.buf, 1);
            Err(LinkError::InvalidStartByte(first))
        }
    }

    /// Parse fixed-length frame: `0x10, CF, ADDR(1-2), CS, 0x16`.
    fn try_parse_fixed(&mut self) -> (r: Result<Option<LinkFrame>, LinkError>)
        ensures
            link_parse_matches(r, fixed_parse(old(self)@, old(self).addr_size as int).0),
            final(self)@ == old(self)@.subrange(
                fixed_parse(old(self)@, old(self).addr_size as int).1,
                old(self)@.len() as int,
            ),
            final(self).addr_size == old(self).addr_size,
    {
        let ghost s = self@;
        let a = self.addr_size as usize;
        let frame_size = 1 + 1 + a + 1 + 1;
        if bytes_mut_len(&self.buf) < frame_size {
            assert(s.subrange(0, s.len() as int) =~= s);
            return Ok(None);
        }
        let end = bytes_mut_at(&self.buf, frame_size - 1);
        if end != END_BYTE {
            bytes_mut_advance(&mut self.buf, 1);
            return Err(LinkError::InvalidEndByte(end));
        }
        // Checksum covers CF + ADDR bytes

        let expected_cs = checksum_range(&self.buf, 1, 2 + a);
        let cs = bytes_mut_at(&self.buf, 2 + a);
        if cs != expected_cs {
            bytes_mut_advance(&mut self.buf, frame_size);
            return Err(LinkError::ChecksumMismatch { expected: expected_cs, got: cs });
        }
        let control = match ControlField::from_byte(bytes_mut_at(&self.buf, 1)) {
            Ok(c) => c,
            Err(e) => {
                assert(s.subrange(0, s.len() as int) =~= s);
                return Err(e);
            },
        };
        let address = if a == 1 {
            LinkAddress(bytes_mut_at(&self.buf, 2) as u16)
        } else {
            LinkAddress((bytes_mut_at(&self.buf, 2) as u16) + 256 * (bytes_mut_at(&self.buf, 3) as u16))
        };
        bytes_mut_advance(&mut self.buf, frame_size);
        Ok(Some(LinkFrame::Fixed { control, address }))
    }

    /// Parse variable-length frame: `0x68, L, L, 0x68, CF, ADDR(1-2), DATA..., CS, 0x16`.
    fn try_parse_variable(&mut self) -> (r: Result<Option<LinkFrame>, LinkError>)
        requires
            !address_beyond_body(old(self)@, old(self).addr_size as int),
            old(self)@.len() >= 1,
            old(self)@[0] == START_VARIABLE,
        ensures
            link_parse_matches(r, variable_parse(old(self)@, old(self).addr_size as int).0),
            final(self)@ == old(self)@.subrange(
                variable_parse(old(self)@, old(self).addr_size as int).1,
                old(self)@.len() as int,
            ),
            final(self).addr_size == old(self).addr_size,
    {
        let ghost s = self@;
        let a = self.addr_size as usize;
        if bytes_mut_len(&self.buf) < 4 {
            assert(s.subrange(0, s.len() as int) =~= s);
            return Ok(None);
        }
        let l1 = bytes_mut_at(&self.buf, 1) as usize;
        let l2 = bytes_mut_at(&self.buf, 2) as usize;
        if l1 != l2 {
            bytes_mut_advance(&mut self.buf, 1);
            return Err(LinkError::LengthMismatch { l1: l1 as u8, l2: l2 as u8 });
        }
        let min_length = 1 + a;  // CF + ADDR
        if l1 < min_length {
            bytes_mut_advance(&mut self.buf, 4);
            return Err(LinkError::LengthTooShort(l1));
        }
        if l1 > MAX_USER_DATA_LENGTH {
            bytes_mut_advance(&mut self.buf, 4);
            return Err(LinkError::LengthExceeded(l1));
        }
        // Total: 4(header) + L(body) + 1(CS) + 1(end)

        let total = 4 + l1 + 2;
        if bytes_mut_len(&self.buf) < total {
            assert(s.subrange(0, s.len() as int) =~= s);
            return Ok(None);
        }
        let third = bytes_mut_at(&self.buf, 3);
        if third != START_VARIABLE {
            bytes_mut_advance(&mut self.buf, 1);
            return Err(LinkError::InvalidStartByte(third));
        }
        let end = bytes_mut_at(&self.buf, total - 1);
        if end != END_BYTE {
            bytes_mut_advance(&mut self.buf, 1);
            return Err(LinkError::InvalidEndByte(end));
        }
        // Body: CF + ADDR + DATA at offset 4..4+l1

        let expected_cs = checksum_range(&self.buf, 4, 4 + l1);
        let cs = bytes_mut_at(&self.buf, 4 + l1);
        if cs != expected_cs {
            bytes_mut_advance(&mut self.buf, total);
            return Err(LinkError::ChecksumMismatch { expected: expected_cs, got: cs });
        }
        let control = match ControlField::from_byte(bytes_mut_at(&self.buf, 4)) {
            Ok(c) => c,
            Err(e) => {
                assert(s.subrange(0, s.len() as int) =~= s);
                return Err(e);
            },
        };
        let address = if a == 1 {
            LinkAddress(bytes_mut_at(&self.buf, 5) as u16)
        } else {
            LinkAddress((bytes_mut_at(&self.buf, 5) as u16) + 256 * (bytes_mut_at(&self.buf, 6) as u16))
        };
        let data_start = 1 + a;
        bytes_mut_advance(&mut self.buf, 4 + data_start);
        let data = freeze(bytes_mut_split_to(&mut self.buf, l1 - data_start));
        bytes_mut_advance(&mut self.buf, 2);
        assert(bytes_seq(data) =~= s.subrange(5 + a, 4 + l1));
        assert(self@ =~= s.subrange(total as int, s.len() as int));
        Ok(Some(LinkFrame::Variable { control, address, data }))
    }
}

impl Default for LinkFrameParser {
    fn default() -> (r: Self)
        ensures
            r@ == Seq::<u8>::empty(),
            r.spec_addr_size() == 1,
    {
        LinkFrameParser::new(1)
    }
}

} // verus!
