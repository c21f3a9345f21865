use bytes::{Bytes, BytesMut};
use vstd::prelude::*;

use crate::error::AduError;
use crate::wire::{bytes_len, bytes_mut_seq, bytes_seq, get_u8, put_u8, remaining_mut};

use super::integrated_totals::flag;
use super::traits::{Decode, Encode, put_outcome, short_error};

verus! {

/// Single command (SCO).
///
/// Wire format: 1 byte
///   - bit 0: SCS (state, false=OFF, true=ON)
///   - bits 2-6: QU (qualifier of command, 0-31)
///   - bit 7: S/E (select=1 / execute=0)
#[derive(Debug, Clone, Copy, PartialEq, Eq, Structural)]
pub struct SingleCommand {
    pub state: bool,
    pub qualifier: u8,
    pub select: bool,
}

/// The SCO byte.
pub open spec fn sco_byte(x: SingleCommand) -> u8 {
    flag(x.state) | ((x.qualifier & 0x1F) << 2) | (flag(x.select) << 7)
}

impl SingleCommand {
    pub const ENCODED_SIZE: usize = 1;

    /// A command with the low five bits of `qualifier`.
    pub fn new(state: bool, qualifier: u8, select: bool) -> (r: Self)
        ensures
            r == (SingleCommand { state, qualifier: qualifier & 0x1F, select }),
    {
        SingleCommand { state, qualifier: qualifier & 0x1F, select }
    }
}

impl Encode for SingleCommand {
    open spec fn spec_bytes(&self) -> Seq<u8> {
        seq![sco_byte(*self)]
    }

    fn encode(&self, buf: &mut BytesMut) -> (r: Result<(), AduError>) {
        let have = remaining_mut(buf);
        if have < SingleCommand::ENCODED_SIZE {
            return Err(AduError::BufferTooShort { need: SingleCommand::ENCODED_SIZE, have });
        }
        let s: u8 = if self.state { 1 } else { 0 };
        let e: u8 = if self.select { 1 } else { 0 };
        let byte = s | ((self.qualifier & 0x1F) << 2) | (e << 7);
        put_u8(buf, byte);
        assert(bytes_mut_seq(*old(buf)).push(byte) =~= bytes_mut_seq(*old(buf)) + self.spec_bytes());
        Ok(())
    }

    fn encoded_size(&self) -> (n: usize) {
        SingleCommand::ENCODED_SIZE
    }
}

impl Decode for SingleCommand {
    open spec fn spec_size() -> nat {
        1
    }

    open spec fn spec_parse(s: Seq<u8>) -> SingleCommand {
        SingleCommand {
            state: s[0] & 0x01 != 0,
            qualifier: (s[0] >> 2) & 0x1F,
            select: s[0] & 0x80 != 0,
        }
    }

    fn decode(buf: &mut Bytes) -> (r: Result<SingleCommand, AduError>) {
        let have = bytes_len(buf);
        if have < SingleCommand::ENCODED_SIZE {
            return Err(AduError::BufferTooShort { need: SingleCommand::ENCODED_SIZE, have });
        }
        let byte = get_u8(buf);
        Ok(
            SingleCommand {
                state: byte & 0x01 != 0,
                qualifier: (byte >> 2) & 0x1F,
                select: byte & 0x80 != 0,
            },
        )
    }
}

/// Decoding the encoding of a single command gives it back, provided that its
/// qualifier fits in five bits.
pub proof fn lemma_single_command_roundtrip(x: SingleCommand, rest: Seq<u8>)
    requires
        x.qualifier < 32,
    ensures
        SingleCommand::spec_parse(x.spec_bytes() + rest) == x,
        x.spec_bytes().len() == SingleCommand::spec_size(),
{
    let st = x.state;
    let q = x.qualifier;
    let se = x.select;
    let b = sco_byte(x);
    assert((b & 0x01 != 0) == st && (b >> 2) & 0x1F == q && (b & 0x80 != 0) == se) by (bit_vector)
        requires
            b == (if st { 1u8 } else { 0u8 }) | ((q & 0x1F) << 2) | ((if se { 1u8 } else { 0u8 }) << 7),
            q < 32,
    ;
}

/// The SCO byte (IEC 60870-5-101 7.2.6.15): the state (SCS) in bit 0, the
/// qualifier (QU) in bits 2-6, select/execute (S/E) in bit 7, bit 1 clear.
/// Decoding reads the same bits.
pub proof fn lemma_sco_layout(x: SingleCommand, s: Seq<u8>)
    requires
        s.len() >= 1,
    ensures
        x.spec_bytes().len() == 1,
        x.spec_bytes()[0] as int == (if x.state {
            1int
        } else {
            0
        }) + 4 * (x.qualifier % 32) + (if x.select {
            128int
        } else {
            0
        }),
        SingleCommand::spec_parse(s).state == (s[0] % 2 == 1),
        SingleCommand::spec_parse(s).qualifier as int == (s[0] / 4) % 32,
        SingleCommand::spec_parse(s).select == (s[0] >= 128),
{
    crate::wire::lemma_packed_bit_field_bit(flag(x.state), x.qualifier, flag(x.select));
    crate::wire::lemma_byte_bits(s[0]);
}

} // verus!
