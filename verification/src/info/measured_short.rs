use bytes::{Bytes, BytesMut};
use vstd::prelude::*;

use crate::error::AduError;
use crate::types::QualityDescriptor;
use crate::wire::{
    bytes_len, bytes_mut_seq, bytes_seq, get_u32_le, get_u8, le_u32, put_u32_le, put_u8,
    remaining_mut, u32_le_seq,
};

use super::traits::{Decode, Encode, put_outcome, short_error};

verus! {

/// Measured value, short floating point (IEEE STD 754 + QDS).
///
/// Wire format: 5 bytes
///   - bytes 0-3: the IEEE 754 single precision value (little-endian)
///   - byte 4: quality descriptor
///
/// The value is held as its 32-bit IEEE 754 pattern (`f32::to_bits`);
/// `f32::from_bits` gives the number.
#[derive(Debug, Clone, Copy, PartialEq, Eq, Structural)]
pub struct MeasuredValueShortFloat {
    pub value_bits: u32,
    pub quality: QualityDescriptor,
}

impl MeasuredValueShortFloat {
    pub const ENCODED_SIZE: usize = 5;

    pub fn new(value_bits: u32, quality: QualityDescriptor) -> (r: Self)
        ensures
            r == (MeasuredValueShortFloat { value_bits, quality }),
    {
        MeasuredValueShortFloat { value_bits, quality }
    }
}

impl Encode for MeasuredValueShortFloat {
    open spec fn spec_bytes(&self) -> Seq<u8> {
        u32_le_seq(self.value_bits as int).push(self.quality@)
    }

    fn encode(&self, buf: &mut BytesMut) -> (r: Result<(), AduError>) {
        let have = remaining_mut(buf);
        if have < MeasuredValueShortFloat::ENCODED_SIZE {
            return Err(AduError::BufferTooShort { need: MeasuredValueShortFloat::ENCODED_SIZE, have });
        }
        put_u32_le(buf, self.value_bits);
        put_u8(buf, self.quality.bits());
        assert(bytes_mut_seq(*final(buf)) =~= bytes_mut_seq(*old(buf)) + self.spec_bytes());
        Ok(())
    }

    fn encoded_size(&self) -> (n: usize) {
        MeasuredValueShortFloat::ENCODED_SIZE
    }
}

impl Decode for MeasuredValueShortFloat {
    open spec fn spec_size() -> nat {
        5
    }

    open spec fn spec_parse(s: Seq<u8>) -> MeasuredValueShortFloat {
        MeasuredValueShortFloat {
            value_bits: le_u32(s[0], s[1], s[2], s[3]) as u32,
            quality: QualityDescriptor::from_byte(s[4]),
        }
    }

    fn decode(buf: &mut Bytes) -> (r: Result<MeasuredValueShortFloat, AduError>) {
        let have = bytes_len(buf);
        if have < MeasuredValueShortFloat::ENCODED_SIZE {
            return Err(AduError::BufferTooShort { need: MeasuredValueShortFloat::ENCODED_SIZE, have });
        }
        let ghost s = bytes_seq(*buf);
        let value_bits = get_u32_le(buf);
        let quality = QualityDescriptor::from_bits_truncate(get_u8(buf));
        assert(bytes_seq(*buf) =~= s.subrange(5, s.len() as int));
        Ok(MeasuredValueShortFloat { value_bits, quality })
    }
}

/// Decoding the encoding of a short float value gives it back bit for bit,
/// provided that its quality holds only known flags.
pub proof fn lemma_short_float_roundtrip(x: MeasuredValueShortFloat, rest: Seq<u8>)
    requires
        x.quality@ & 0x0E == 0,
    ensures
        MeasuredValueShortFloat::spec_parse(x.spec_bytes() + rest) == x,
        x.spec_bytes().len() == MeasuredValueShortFloat::spec_size(),
{
    crate::wire::lemma_u32_le_roundtrip(x.value_bits as int);
    crate::types::quality::lemma_quality_from_own_byte(x.quality);
}

/// The wire layout of a short floating point value with quality (IEC
/// 60870-5-101 7.2.6.8 and 7.2.6.3): the 32 bits of the IEEE 754 value, low
/// byte first, then the QDS byte. Decoding reads the same layout.
pub proof fn lemma_short_float_layout(x: MeasuredValueShortFloat, s: Seq<u8>)
    requires
        s.len() >= 5,
    ensures
        x.spec_bytes().len() == 5,
        x.spec_bytes()[0] as int + 256 * x.spec_bytes()[1] as int + 65536 * x.spec_bytes()[2] as int + 16777216
            * x.spec_bytes()[3] as int == x.value_bits,
        x.spec_bytes()[4] == x.quality@,
        MeasuredValueShortFloat::spec_parse(s).value_bits as int == s[0] as int + 256 * s[1] as int + 65536
            * s[2] as int + 16777216 * s[3] as int,
        MeasuredValueShortFloat::spec_parse(s).quality@ as int == super::measured_normalized::qds_read(s[4]),
{
    crate::wire::lemma_u32_le_roundtrip(x.value_bits as int);
    crate::wire::lemma_byte_bits(s[4]);
    crate::types::quality::lemma_quality_from_byte(s[4]);
    let u = le_u32(s[0], s[1], s[2], s[3]);
    assert(0 <= u < 0x1_0000_0000) by (nonlinear_arith)
        requires
            u == s[0] as int + 256 * s[1] as int + 65536 * s[2] as int + 16777216 * s[3] as int,
            0 <= s[0] < 256,
            0 <= s[1] < 256,
            0 <= s[2] < 256,
            0 <= s[3] < 256,
    ;
}

} // verus!
