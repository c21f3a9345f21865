use bytes::{Bytes, BytesMut};
use vstd::prelude::*;

use crate::error::AduError;
use crate::types::QualityDescriptor;
use crate::wire::{bytes_len, bytes_mut_seq, bytes_seq, get_i16_le, get_u8, put_i16_le, put_u8, remaining_mut};

use super::measured_normalized::{i16_bytes, i16_of, lemma_i16_roundtrip};
use super::traits::{Decode, Encode, put_outcome, short_error};

verus! {

/// Measured value, scaled (SVA + QDS).
///
/// Wire format: 3 bytes
///   - bytes 0-1: scaled value (i16, little-endian)
///   - byte 2: quality descriptor
#[derive(Debug, Clone, Copy, PartialEq, Eq, Structural)]
pub struct MeasuredValueScaled {
    pub value: i16,
    pub quality: QualityDescriptor,
}

impl MeasuredValueScaled {
    pub const ENCODED_SIZE: usize = 3;

    pub fn new(value: i16, quality: QualityDescriptor) -> (r: Self)
        ensures
            r == (MeasuredValueScaled { value, quality }),
    {
        MeasuredValueScaled { value, quality }
    }
}

impl Encode for MeasuredValueScaled {
    open spec fn spec_bytes(&self) -> Seq<u8> {
        i16_bytes(self.value).push(self.quality@)
    }

    fn encode(&self, buf: &mut BytesMut) -> (r: Result<(), AduError>) {
        let have = remaining_mut(buf);
        if have < MeasuredValueScaled::ENCODED_SIZE {
            return Err(AduError::BufferTooShort { need: MeasuredValueScaled::ENCODED_SIZE, have });
        }
        put_i16_le(buf, self.value);
        put_u8(buf, self.quality.bits());
        assert(bytes_mut_seq(*final(buf)) =~= bytes_mut_seq(*old(buf)) + self.spec_bytes());
        Ok(())
    }

    fn encoded_size(&self) -> (n: usize) {
        MeasuredValueScaled::ENCODED_SIZE
    }
}

impl Decode for MeasuredValueScaled {
    open spec fn spec_size() -> nat {
        3
    }

    open spec fn spec_parse(s: Seq<u8>) -> MeasuredValueScaled {
        MeasuredValueScaled { value: i16_of(s), quality: QualityDescriptor::from_byte(s[2]) }
    }

    fn decode(buf: &mut Bytes) -> (r: Result<MeasuredValueScaled, AduError>) {
        let have = bytes_len(buf);
        if have < MeasuredValueScaled::ENCODED_SIZE {
            return Err(AduError::BufferTooShort { need: MeasuredValueScaled::ENCODED_SIZE, have });
        }
        let ghost s = bytes_seq(*buf);
        let value = get_i16_le(buf);
        let quality = QualityDescriptor::from_bits_truncate(get_u8(buf));
        assert(bytes_seq(*buf) =~= s.subrange(3, s.len() as int));
        Ok(MeasuredValueScaled { value, quality })
    }
}

/// Decoding the encoding of a scaled value gives it back, provided that its
/// quality holds only known flags.
pub proof fn lemma_scaled_roundtrip(x: MeasuredValueScaled, rest: Seq<u8>)
    requires
        x.quality@ & 0x0E == 0,
    ensures
        MeasuredValueScaled::spec_parse(x.spec_bytes() + rest) == x,
        x.spec_bytes().len() == MeasuredValueScaled::spec_size(),
{
    lemma_i16_roundtrip(x.value, seq![x.quality@]);
    assert(i16_bytes(x.value).push(x.quality@) =~= i16_bytes(x.value) + seq![x.quality@]);
    crate::types::quality::lemma_quality_from_own_byte(x.quality);
}

/// The wire layout of a scaled value with quality (IEC 60870-5-101 7.2.6.7
/// and 7.2.6.3): the value as a 16-bit two's complement number, low byte
/// first, then the QDS byte. Decoding reads the same layout.
pub proof fn lemma_scaled_layout(x: MeasuredValueScaled, s: Seq<u8>)
    requires
        s.len() >= 3,
    ensures
        x.spec_bytes().len() == 3,
        (x.spec_bytes()[0] as int + 256 * x.spec_bytes()[1] as int - x.value as int) % 65536 == 0,
        x.spec_bytes()[2] == x.quality@,
        (MeasuredValueScaled::spec_parse(s).value as int - (s[0] as int + 256 * s[1] as int)) % 65536 == 0,
        MeasuredValueScaled::spec_parse(s).quality@ as int == super::measured_normalized::qds_read(s[2]),
{
    super::measured_normalized::lemma_i16_roundtrip(x.value, seq![x.quality@]);
    crate::wire::lemma_u16_le_roundtrip(crate::wire::unsigned16(x.value as int));
    crate::wire::lemma_byte_bits(s[2]);
    crate::types::quality::lemma_quality_from_byte(s[2]);
}

} // verus!
