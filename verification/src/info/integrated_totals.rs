use bytes::{Bytes, BytesMut};
use vstd::prelude::*;

use crate::error::AduError;
use crate::wire::{
    bytes_len, bytes_mut_seq, bytes_seq, get_i32_le, get_u8, le_u32, put_i32_le, put_u8,
    remaining_mut, signed32, u32_le_seq, unsigned32,
};

use super::traits::{Decode, Encode, put_outcome, short_error};

verus! {

/// Binary counter reading (BCR).
///
/// Wire format: 5 bytes
///   - bytes 0-3: counter value (i32, little-endian)
///   - byte 4: sequence number (bits 0-4), carry (bit 5),
///     counter adjusted (bit 6), invalid (bit 7)
#[derive(Debug, Clone, Copy, PartialEq, Eq, Structural)]
pub struct BinaryCounterReading {
    pub value: i32,
    pub sequence_number: u8,
    pub carry: bool,
    pub adjusted: bool,
    pub invalid: bool,
}

/// A flag as a byte: 1 or 0.
pub open spec fn flag(b: bool) -> u8 {
    if b {
        1
    } else {
        0
    }
}

/// The flags byte of a counter reading.
pub open spec fn bcr_flags(x: BinaryCounterReading) -> u8 {
    (x.sequence_number & 0x1F) | (flag(x.carry) << 5) | (flag(x.adjusted) << 6) | (flag(x.invalid) << 7)
}

impl BinaryCounterReading {
    pub const ENCODED_SIZE: usize = 5;

    /// A reading with the low five bits of `sequence_number` and no flag set.
    pub fn new(value: i32, sequence_number: u8) -> (r: Self)
        ensures
            r == (BinaryCounterReading {
                value,
                sequence_number: sequence_number & 0x1F,
                carry: false,
                adjusted: false,
                invalid: false,
            }),
    {
        BinaryCounterReading {
            value,
            sequence_number: sequence_number & 0x1F,
            carry: false,
            adjusted: false,
            invalid: false,
        }
    }
}

impl Encode for BinaryCounterReading {
    open spec fn spec_bytes(&self) -> Seq<u8> {
        u32_le_seq(unsigned32(self.value as int)).push(bcr_flags(*self))
    }

    fn encode(&self, buf: &mut BytesMut) -> (r: Result<(), AduError>) {
        let have = remaining_mut(buf);
        if have < BinaryCounterReading::ENCODED_SIZE {
            return Err(AduError::BufferTooShort { need: BinaryCounterReading::ENCODED_SIZE, have });
        }
        put_i32_le(buf, self.value);
        let c: u8 = if self.carry { 1 } else { 0 };
        let a: u8 = if self.adjusted { 1 } else { 0 };
        let i: u8 = if self.invalid { 1 } else { 0 };
        let flags = (self.sequence_number & 0x1F) | (c << 5) | (a << 6) | (i << 7);
        put_u8(buf, flags);
        assert(bytes_mut_seq(*final(buf)) =~= bytes_mut_seq(*old(buf)) + self.spec_bytes());
        Ok(())
    }

    fn encoded_size(&self) -> (n: usize) {
        BinaryCounterReading::ENCODED_SIZE
    }
}

impl Decode for BinaryCounterReading {
    open spec fn spec_size() -> nat {
        5
    }

    open spec fn spec_parse(s: Seq<u8>) -> BinaryCounterReading {
        BinaryCounterReading {
            value: signed32(le_u32(s[0], s[1], s[2], s[3])) as i32,
            sequence_number: s[4] & 0x1F,
            carry: s[4] & 0x20 != 0,
            adjusted: s[4] & 0x40 != 0,
            invalid: s[4] & 0x80 != 0,
        }
    }

    fn decode(buf: &mut Bytes) -> (r: Result<BinaryCounterReading, AduError>) {
        let have = bytes_len(buf);
        if have < BinaryCounterReading::ENCODED_SIZE {
            return Err(AduError::BufferTooShort { need: BinaryCounterReading::ENCODED_SIZE, have });
        }
        let ghost s = bytes_seq(*buf);
        let value = get_i32_le(buf);
        let flags = get_u8(buf);
        assert(bytes_seq(*buf) =~= s.subrange(5, s.len() as int));
        Ok(
            BinaryCounterReading {
                value,
                sequence_number: flags & 0x1F,
                carry: flags & 0x20 != 0,
                adjusted: flags & 0x40 != 0,
                invalid: flags & 0x80 != 0,
            },
        )
    }
}

/// Decoding the encoding of a counter reading gives it back, provided that
/// its sequence number fits in five bits.
pub proof fn lemma_counter_roundtrip(x: BinaryCounterReading, rest: Seq<u8>)
    requires
        x.sequence_number < 32,
    ensures
        BinaryCounterReading::spec_parse(x.spec_bytes() + rest) == x,
        x.spec_bytes().len() == BinaryCounterReading::spec_size(),
{
    crate::wire::lemma_signed32_roundtrip(x.value as int);
    crate::wire::lemma_u32_le_roundtrip(unsigned32(x.value as int));
    let sn = x.sequence_number;
    let c = x.carry;
    let a = x.adjusted;
    let i = x.invalid;
    let f = bcr_flags(x);
    assert(f & 0x1F == sn && (f & 0x20 != 0) == c && (f & 0x40 != 0) == a && (f & 0x80 != 0) == i)
        by (bit_vector)
        requires
            f == (sn & 0x1F) | ((if c { 1u8 } else { 0u8 }) << 5) | ((if a { 1u8 } else { 0u8 }) << 6)
                | ((if i { 1u8 } else { 0u8 }) << 7),
            sn < 32,
    ;
}

/// A byte of five low bits and three flags above them: as a number, the low
/// bits plus 32, 64 and 128 for the flags that are set.
proof fn lemma_five_bits_three_flags(low: u8, f5: u8, f6: u8, f7: u8)
    by (bit_vector)
    requires
        f5 <= 1,
        f6 <= 1,
        f7 <= 1,
    ensures
        ((low & 0x1F) | (f5 << 5) | (f6 << 6) | (f7 << 7)) as int == low % 32 + 32 * f5 + 64 * f6 + 128 * f7,
{
}

/// The wire bytes of a binary counter reading (IEC 60870-5-101 7.2.6.9): the
/// counter value as a 32-bit two's complement number, low byte first, then a
/// byte holding the sequence number in bits 0-4, carry (CY) in bit 5, counter
/// adjusted (CA) in bit 6 and invalid (IV) in bit 7.
pub proof fn lemma_counter_wire_layout(x: BinaryCounterReading)
    ensures
        x.spec_bytes().len() == 5,
        le_u32(x.spec_bytes()[0], x.spec_bytes()[1], x.spec_bytes()[2], x.spec_bytes()[3]) == unsigned32(
            x.value as int,
        ),
        x.spec_bytes()[4] as int == x.sequence_number % 32 + (if x.carry {
            32int
        } else {
            0
        }) + (if x.adjusted {
            64int
        } else {
            0
        }) + (if x.invalid {
            128int
        } else {
            0
        }),
{
    crate::wire::lemma_signed32_roundtrip(x.value as int);
    crate::wire::lemma_u32_le_roundtrip(unsigned32(x.value as int));
    lemma_five_bits_three_flags(x.sequence_number, flag(x.carry), flag(x.adjusted), flag(x.invalid));
}

/// Decoding a binary counter reading reads the same layout: the value from
/// the first four bytes, and from the fifth the sequence number (bits 0-4),
/// carry (bit 5), counter adjusted (bit 6) and invalid (bit 7).
pub proof fn lemma_counter_wire_read(s: Seq<u8>)
    requires
        s.len() >= 5,
    ensures
        BinaryCounterReading::spec_parse(s).value as int == signed32(le_u32(s[0], s[1], s[2], s[3])),
        BinaryCounterReading::spec_parse(s).sequence_number as int == s[4] % 32,
        BinaryCounterReading::spec_parse(s).carry == ((s[4] / 32) % 2 == 1),
        BinaryCounterReading::spec_parse(s).adjusted == ((s[4] / 64) % 2 == 1),
        BinaryCounterReading::spec_parse(s).invalid == (s[4] >= 128),
{
    crate::wire::lemma_byte_bits(s[4]);
    let u = le_u32(s[0], s[1], s[2], s[3]);
    assert(0 <= u < 0x1_0000_0000) by (nonlinear_arith)
        requires
            u == s[0] as int + 256 * s[1] as int + 65536 * s[2] as int + 16777216 * s[3] as int,
            0 <= s[0] < 256,
            0 <= s[1] < 256,
            0 <= s[2] < 256,
            0 <= s[3] < 256,
    ;
}

} // verus!
