use bytes::{Bytes, BytesMut};
use vstd::prelude::*;

use crate::error::AduError;
use crate::types::Cp56Time2a;
use crate::wire::{
    bytes_len, bytes_mut_seq, bytes_seq, copy_to_vec, extend_from_slice, get_u8, put_u8,
    remaining_mut,
};

use super::integrated_totals::flag;
use super::traits::{Decode, Encode, put_outcome, short_error};

verus! {

/// Interrogation command — qualifier of interrogation (QOI).
///
/// Wire format: 1 byte (QOI value, typically 20 = station interrogation)
#[derive(Debug, Clone, Copy, PartialEq, Eq, Structural)]
pub struct InterrogationCommand {
    pub qoi: u8,
}

impl InterrogationCommand {
    pub const ENCODED_SIZE: usize = 1;

    pub fn new(qoi: u8) -> (r: Self)
        ensures
            r.qoi == qoi,
    {
        InterrogationCommand { qoi }
    }

    /// Station interrogation (QOI = 20).
    pub fn station() -> (r: Self)
        ensures
            r.qoi == 20,
    {
        InterrogationCommand { qoi: 20 }
    }
}

impl Encode for InterrogationCommand {
    open spec fn spec_bytes(&self) -> Seq<u8> {
        seq![self.qoi]
    }

    fn encode(&self, buf: &mut BytesMut) -> (r: Result<(), AduError>) {
        let have = remaining_mut(buf);
        if have < InterrogationCommand::ENCODED_SIZE {
            return Err(AduError::BufferTooShort { need: InterrogationCommand::ENCODED_SIZE, have });
        }
        put_u8(buf, self.qoi);
        assert(bytes_mut_seq(*old(buf)).push(self.qoi) =~= bytes_mut_seq(*old(buf)) + self.spec_bytes());
        Ok(())
    }

    fn encoded_size(&self) -> (n: usize) {
        InterrogationCommand::ENCODED_SIZE
    }
}

impl Decode for InterrogationCommand {
    open spec fn spec_size() -> nat {
        1
    }

    open spec fn spec_parse(s: Seq<u8>) -> InterrogationCommand {
        InterrogationCommand { qoi: s[0] }
    }

    fn decode(buf: &mut Bytes) -> (r: Result<InterrogationCommand, AduError>) {
        let have = bytes_len(buf);
        if have < InterrogationCommand::ENCODED_SIZE {
            return Err(AduError::BufferTooShort { need: InterrogationCommand::ENCODED_SIZE, have });
        }
        Ok(InterrogationCommand { qoi: get_u8(buf) })
    }
}

/// Counter interrogation command — qualifier of counter interrogation (QCC).
///
/// Wire format: 1 byte
///   - bits 0-4: request (RQT)
///   - bits 5-6: freeze (FRZ)
#[derive(Debug, Clone, Copy, PartialEq, Eq, Structural)]
pub struct CounterInterrogationCommand {
    pub qcc: u8,
}

impl CounterInterrogationCommand {
    pub const ENCODED_SIZE: usize = 1;

    pub fn new(qcc: u8) -> (r: Self)
        ensures
            r.qcc == qcc,
    {
        CounterInterrogationCommand { qcc }
    }
}

impl Encode for CounterInterrogationCommand {
    open spec fn spec_bytes(&self) -> Seq<u8> {
        seq![self.qcc]
    }

    fn encode(&self, buf: &mut BytesMut) -> (r: Result<(), AduError>) {
        let have = remaining_mut(buf);
        if have < CounterInterrogationCommand::ENCODED_SIZE {
            return Err(AduError::BufferTooShort { need: CounterInterrogationCommand::ENCODED_SIZE, have });
        }
        put_u8(buf, self.qcc);
        assert(bytes_mut_seq(*old(buf)).push(self.qcc) =~= bytes_mut_seq(*old(buf)) + self.spec_bytes());
        Ok(())
    }

    fn encoded_size(&self) -> (n: usize) {
        CounterInterrogationCommand::ENCODED_SIZE
    }
}

impl Decode for CounterInterrogationCommand {
    open spec fn spec_size() -> nat {
        1
    }

    open spec fn spec_parse(s: Seq<u8>) -> CounterInterrogationCommand {
        CounterInterrogationCommand { qcc: s[0] }
    }

    fn decode(buf: &mut Bytes) -> (r: Result<CounterInterrogationCommand, AduError>) {
        let have = bytes_len(buf);
        if have < CounterInterrogationCommand::ENCODED_SIZE {
            return Err(AduError::BufferTooShort { need: CounterInterrogationCommand::ENCODED_SIZE, have });
        }
        Ok(CounterInterrogationCommand { qcc: get_u8(buf) })
    }
}

/// Read command — no payload.
///
/// Wire format: 0 bytes
#[derive(Debug, Clone, Copy, PartialEq, Eq, Structural)]
pub struct ReadCommand;

impl ReadCommand {
    pub const ENCODED_SIZE: usize = 0;
}

impl Encode for ReadCommand {
    open spec fn spec_bytes(&self) -> Seq<u8> {
        Seq::empty()
    }

    fn encode(&self, buf: &mut BytesMut) -> (r: Result<(), AduError>) {
        assert(bytes_mut_seq(*buf) =~= bytes_mut_seq(*buf) + self.spec_bytes());
        Ok(())
    }

    fn encoded_size(&self) -> (n: usize) {
        ReadCommand::ENCODED_SIZE
    }
}

impl Decode for ReadCommand {
    open spec fn spec_size() -> nat {
        0
    }

    open spec fn spec_parse(s: Seq<u8>) -> ReadCommand {
        ReadCommand
    }

    fn decode(buf: &mut Bytes) -> (r: Result<ReadCommand, AduError>) {
        assert(bytes_seq(*buf) =~= bytes_seq(*buf).subrange(0, bytes_seq(*buf).len() as int));
        Ok(ReadCommand)
    }
}

/// Clock synchronization command — contains CP56Time2a.
///
/// Wire format: 7 bytes (Cp56Time2a)
#[derive(Debug, Clone, Copy, PartialEq, Eq)]
pub struct ClockSyncCommand {
    pub time: Cp56Time2a,
}

/// The time that the first seven bytes of `s` encode.
pub open spec fn cp56_of(s: Seq<u8>) -> Cp56Time2a {
    Cp56Time2a::spec_from_bytes(s.subrange(0, 7))->Ok_0
}

/// Reading a time back out of the bytes that start with its encoding.
pub proof fn lemma_cp56_roundtrip(t: Cp56Time2a, rest: Seq<u8>)
    ensures
        cp56_of(t@ + rest) == t,
        t@.len() == 7,
{
    crate::types::time::lemma_cp56_bytes_roundtrip(t);
    assert((t@ + rest).subrange(0, 7) =~= t@);
}

/// Reads a CP56Time2a from the front of the buffer.
pub(crate) fn decode_cp56(buf: &mut Bytes) -> (r: Result<Cp56Time2a, AduError>)
    ensures
        match short_error(bytes_seq(*old(buf)), 7) {
            Some(e) => r == Err::<Cp56Time2a, AduError>(e) && bytes_seq(*final(buf)) == bytes_seq(*old(buf)),
            None => r == Ok::<Cp56Time2a, AduError>(cp56_of(bytes_seq(*old(buf))))
                && bytes_seq(*final(buf)) == bytes_seq(*old(buf)).subrange(7, bytes_seq(*old(buf)).len() as int),
        },
{
    let have = bytes_len(buf);
    if have < Cp56Time2a::ENCODED_SIZE {
        return Err(AduError::BufferTooShort { need: Cp56Time2a::ENCODED_SIZE, have });
    }
    let bytes = copy_to_vec(buf, Cp56Time2a::ENCODED_SIZE);
    proof {
        crate::types::time::lemma_cp56_from_bytes_ok(bytes@);
    }
    Cp56Time2a::from_bytes(bytes.as_slice())
}

/// Appends the seven bytes of a CP56Time2a.
pub(crate) fn encode_cp56(time: &Cp56Time2a, buf: &mut BytesMut) -> (r: Result<(), AduError>)
    ensures
        (r, bytes_mut_seq(*final(buf))) == put_outcome(bytes_mut_seq(*old(buf)), time@),
{
    proof {
        crate::types::time::lemma_cp56_bytes_roundtrip(*time);
    }
    let have = remaining_mut(buf);
    if have < Cp56Time2a::ENCODED_SIZE {
        return Err(AduError::BufferTooShort { need: Cp56Time2a::ENCODED_SIZE, have });
    }
    extend_from_slice(buf, time.as_bytes().as_slice());
    Ok(())
}

impl ClockSyncCommand {
    pub const ENCODED_SIZE: usize = 7;

    pub fn new(time: Cp56Time2a) -> (r: Self)
        ensures
            r.time == time,
    {
        ClockSyncCommand { time }
    }
}

impl Encode for ClockSyncCommand {
    open spec fn spec_bytes(&self) -> Seq<u8> {
        self.time@
    }

    fn encode(&self, buf: &mut BytesMut) -> (r: Result<(), AduError>) {
        encode_cp56(&self.time, buf)
    }

    fn encoded_size(&self) -> (n: usize) {
        proof {
            crate::types::time::lemma_cp56_bytes_roundtrip(self.time);
        }
        ClockSyncCommand::ENCODED_SIZE
    }
}

impl Decode for ClockSyncCommand {
    open spec fn spec_size() -> nat {
        7
    }

    open spec fn spec_parse(s: Seq<u8>) -> ClockSyncCommand {
        ClockSyncCommand { time: cp56_of(s) }
    }

    fn decode(buf: &mut Bytes) -> (r: Result<ClockSyncCommand, AduError>) {
        let time = decode_cp56(buf)?;
        Ok(ClockSyncCommand { time })
    }
}

/// End of initialization — cause of initialization (COI).
///
/// Wire format: 1 byte
///   - bits 0-6: cause (0=local power on, 1=local manual reset, 2=remote reset)
///   - bit 7: change of local parameters (1=yes)
#[derive(Debug, Clone, Copy, PartialEq, Eq, Structural)]
pub struct EndOfInitialization {
    pub cause: u8,
    pub local_param_change: bool,
}

/// The COI byte.
pub open spec fn coi_byte(x: EndOfInitialization) -> u8 {
    (x.cause & 0x7F) | (flag(x.local_param_change) << 7)
}

impl EndOfInitialization {
    pub const ENCODED_SIZE: usize = 1;

    /// An end of initialization with the low seven bits of `cause`.
    pub fn new(cause: u8, local_param_change: bool) -> (r: Self)
        ensures
            r == (EndOfInitialization { cause: cause & 0x7F, local_param_change }),
    {
        EndOfInitialization { cause: cause & 0x7F, local_param_change }
    }
}

impl Encode for EndOfInitialization {
    open spec fn spec_bytes(&self) -> Seq<u8> {
        seq![coi_byte(*self)]
    }

    fn encode(&self, buf: &mut BytesMut) -> (r: Result<(), AduError>) {
        let have = remaining_mut(buf);
        if have < EndOfInitialization::ENCODED_SIZE {
            return Err(AduError::BufferTooShort { need: EndOfInitialization::ENCODED_SIZE, have });
        }
        let l: u8 = if self.local_param_change { 1 } else { 0 };
        let byte = (self.cause & 0x7F) | (l << 7);
        put_u8(buf, byte);
        assert(bytes_mut_seq(*old(buf)).push(byte) =~= bytes_mut_seq(*old(buf)) + self.spec_bytes());
        Ok(())
    }

    fn encoded_size(&self) -> (n: usize) {
        EndOfInitialization::ENCODED_SIZE
    }
}

impl Decode for EndOfInitialization {
    open spec fn spec_size() -> nat {
        1
    }

    open spec fn spec_parse(s: Seq<u8>) -> EndOfInitialization {
        EndOfInitialization { cause: s[0] & 0x7F, local_param_change: s[0] & 0x80 != 0 }
    }

    fn decode(buf: &mut Bytes) -> (r: Result<EndOfInitialization, AduError>) {
        let have = bytes_len(buf);
        if have < EndOfInitialization::ENCODED_SIZE {
            return Err(AduError::BufferTooShort { need: EndOfInitialization::ENCODED_SIZE, have });
        }
        let byte = get_u8(buf);
        Ok(EndOfInitialization { cause: byte & 0x7F, local_param_change: byte & 0x80 != 0 })
    }
}

/// Decoding the encoding of an end of initialization gives it back, provided
/// that its cause fits in seven bits.
pub proof fn lemma_end_of_init_roundtrip(x: EndOfInitialization, rest: Seq<u8>)
    requires
        x.cause < 128,
    ensures
        EndOfInitialization::spec_parse(x.spec_bytes() + rest) == x,
        x.spec_bytes().len() == EndOfInitialization::spec_size(),
{
    let c = x.cause;
    let l = x.local_param_change;
    let b = coi_byte(x);
    assert(b & 0x7F == c && (b & 0x80 != 0) == l) by (bit_vector)
        requires
            b == (c & 0x7F) | ((if l { 1u8 } else { 0u8 }) << 7),
            c < 128,
    ;
}

/// The COI byte (IEC 60870-5-101 7.2.6.21): the cause of initialization in
/// bits 0-6 and, in bit 7, whether local parameters changed. Decoding reads
/// the same bits.
pub proof fn lemma_coi_layout(x: EndOfInitialization, s: Seq<u8>)
    requires
        s.len() >= 1,
    ensures
        x.spec_bytes().len() == 1,
        x.spec_bytes()[0] as int == x.cause % 128 + (if x.local_param_change {
            128int
        } else {
            0
        }),
        EndOfInitialization::spec_parse(s).cause as int == s[0] % 128,
        EndOfInitialization::spec_parse(s).local_param_change == (s[0] >= 128),
{
    crate::wire::lemma_packed_seven_and_flag(x.cause, flag(x.local_param_change));
    crate::wire::lemma_byte_bits(s[0]);
}

} // verus!
