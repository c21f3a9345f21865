//! Error types of the protocol layers.
use std::time::Duration;
use vstd::prelude::*;

verus! {

#[verifier::external_type_specification]
#[verifier::external_body]
pub struct ExIoError(std::io::Error);

// --- Frame layer (APCI) ---
/// Errors of the CS 104 APCI framing.
#[derive(Debug)]
pub enum FrameError {
    /// Expected start byte 0x68.
    InvalidStartByte(u8),
    /// APDU length below the four control bytes.
    LengthTooShort(usize),
    /// APDU length above the maximum of 253.
    LengthExceeded { length: usize, max: usize },
    /// U-frame control byte that names no function.
    UnknownUFunction(u8),
    /// Control field byte that is neither I, S nor U format.
    InvalidControlField(u8),
    /// Transport error.
    Io(std::io::Error),
}

// --- Link layer (FT 1.2) ---
/// Errors of the CS 101 FT 1.2 link layer framing.
#[derive(Debug)]
pub enum LinkError {
    /// First byte is none of 0x10, 0x68, 0xE5.
    InvalidStartByte(u8),
    /// Last byte is not 0x16.
    InvalidEndByte(u8),
    /// Checksum byte differs from the sum of the body bytes.
    ChecksumMismatch { expected: u8, got: u8 },
    /// The two length bytes of a variable frame differ.
    LengthMismatch { l1: u8, l2: u8 },
    /// Length below control field plus address.
    LengthTooShort(usize),
    /// Length above the maximum of 253.
    LengthExceeded(usize),
    /// Function code that names no primary function.
    UnknownPrimaryFunction(u8),
    /// Function code that names no secondary function.
    UnknownSecondaryFunction(u8),
    /// Transport error.
    Io(std::io::Error),
}

// --- ADU layer (ASDU encode/decode) ---
/// IOA value exceeds the 3-byte maximum (0xFFFFFF).
#[derive(Debug, Clone, Copy, PartialEq, Eq, Structural)]
pub struct IoaOverflow(pub u32);

/// Errors of ASDU encoding and decoding.
#[allow(inconsistent_fields)]
#[derive(Debug, Clone, Copy, PartialEq, Eq, Structural)]
pub enum AduError {
    BufferTooShort { need: usize, have: usize },
    InvalidTypeId(u8),
    InvalidCauseOfTransmission(u8),
    UnsupportedTypeId(u8),
    NumObjectsOverflow(u8),
    TypeMismatch { expected: u8, got: u8 },
    NonSequentialIoa { index: usize, expected: u32, got: u32 },
    ExceedsMaxLength { size: usize, max: u16 },
    EmptyAsdu,
    TooManyObjects,
    IoaOverflow(IoaOverflow),
}

// --- Configuration errors ---
/// Errors of the parameter builders.
#[derive(Debug, Clone, Copy, PartialEq, Eq)]
pub enum ConfigError {
    InvalidK(u16),
    InvalidW(u16),
    WExceedsK { w: u16, k: u16 },
    ZeroTimeout(&'static str),
    T2NotLessThanT1 { t2: Duration, t1: Duration },
    InvalidSizeOfCot(u8),
    InvalidSizeOfCa(u8),
    InvalidSizeOfIoa(u8),
    InvalidLinkAddrSize(u8),
    MaxAsduLengthTooSmall { max: u16, min: u16 },
}

// --- Client request errors ---
/// Errors returned to the callers of client and server handles.
#[derive(Debug)]
pub enum RequestError {
    NotConnected,
    Shutdown,
    TaskClosed,
    SendWindowFull,
    Timeout(&'static str),
    SequenceError { expected: u16, got: u16 },
    UnexpectedResponse(String),
    NotActive,
    AlreadyActive,
    /// The secondary station answered a link request with NACK.
    LinkNack,
    /// The secondary station answered a link reset with something else than ACK.
    LinkResetFailed,
    Frame(FrameError),
    Link(LinkError),
    Adu(AduError),
    Io(std::io::Error),
}

impl From<IoaOverflow> for AduError {
    fn from(e: IoaOverflow) -> (r: Self) {
        AduError::IoaOverflow(e)
    }
}

impl vstd::std_specs::convert::FromSpecImpl<IoaOverflow> for AduError {
    open spec fn obeys_from_spec() -> bool {
        true
    }

    open spec fn from_spec(e: IoaOverflow) -> AduError {
        AduError::IoaOverflow(e)
    }
}

impl From<std::io::Error> for FrameError {
    fn from(e: std::io::Error) -> (r: Self) {
        FrameError::Io(e)
    }
}

impl vstd::std_specs::convert::FromSpecImpl<std::io::Error> for FrameError {
    open spec fn obeys_from_spec() -> bool {
        true
    }

    open spec fn from_spec(e: std::io::Error) -> FrameError {
        FrameError::Io(e)
    }
}

impl From<FrameError> for RequestError {
    fn from(e: FrameError) -> (r: Self) {
        RequestError::Frame(e)
    }
}

impl vstd::std_specs::convert::FromSpecImpl<FrameError> for RequestError {
    open spec fn obeys_from_spec() -> bool {
        true
    }

    open spec fn from_spec(e: FrameError) -> RequestError {
        RequestError::Frame(e)
    }
}

impl From<AduError> for RequestError {
    fn from(e: AduError) -> (r: Self) {
        RequestError::Adu(e)
    }
}

impl vstd::std_specs::convert::FromSpecImpl<AduError> for RequestError {
    open spec fn obeys_from_spec() -> bool {
        true
    }

    open spec fn from_spec(e: AduError) -> RequestError {
        RequestError::Adu(e)
    }
}

impl From<std::io::Error> for RequestError {
    fn from(e: std::io::Error) -> (r: Self) {
        RequestError::Io(e)
    }
}

impl vstd::std_specs::convert::FromSpecImpl<std::io::Error> for RequestError {
    open spec fn obeys_from_spec() -> bool {
        true
    }

    open spec fn from_spec(e: std::io::Error) -> RequestError {
        RequestError::Io(e)
    }
}

} // verus!
