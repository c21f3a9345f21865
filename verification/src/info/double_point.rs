use bytes::{Bytes, BytesMut};
use vstd::prelude::*;

use crate::error::AduError;
use crate::types::{DoublePointValue, QualityDescriptor};
use crate::wire::{bytes_len, bytes_mut_seq, bytes_seq, get_u8, put_u8, remaining_mut};

use super::traits::{Decode, Encode, put_outcome, short_error};

verus! {

/// Double-point information (DIQ).
///
/// Wire format: 1 byte
///   - bits 0-1: DPI (double-point value)
///   - bits 4-7: quality descriptor (BL, SB, NT, IV)
#[derive(Debug, Clone, Copy, PartialEq, Eq, Structural)]
pub struct DoublePointInformation {
    pub value: DoublePointValue,
    pub quality: QualityDescriptor,
}

/// The DIQ byte: the upper four quality bits and the state in bits 0-1.
pub open spec fn diq_byte(value: DoublePointValue, quality: QualityDescriptor) -> u8 {
    (quality@ & 0xF0) | (value.code() & 0x03)
}

impl DoublePointInformation {
    pub const ENCODED_SIZE: usize = 1;

    pub fn new(value: DoublePointValue, quality: QualityDescriptor) -> (r: Self)
        ensures
            r == (DoublePointInformation { value, quality }),
    {
        DoublePointInformation { value, quality }
    }
}

impl Encode for DoublePointInformation {
    open spec fn spec_bytes(&self) -> Seq<u8> {
        seq![diq_byte(self.value, self.quality)]
    }

    fn encode(&self, buf: &mut BytesMut) -> (r: Result<(), AduError>) {
        let have = remaining_mut(buf);
        if have < DoublePointInformation::ENCODED_SIZE {
            return Err(AduError::BufferTooShort { need: DoublePointInformation::ENCODED_SIZE, have });
        }
        let byte = (self.quality.bits() & 0xF0) | (self.value.as_u8() & 0x03);
        put_u8(buf, byte);
        assert(bytes_mut_seq(*old(buf)).push(byte) =~= bytes_mut_seq(*old(buf)) + self.spec_bytes());
        Ok(())
    }

    fn encoded_size(&self) -> (n: usize) {
        DoublePointInformation::ENCODED_SIZE
    }
}

impl Decode for DoublePointInformation {
    open spec fn spec_size() -> nat {
        1
    }

    open spec fn spec_parse(s: Seq<u8>) -> DoublePointInformation {
        DoublePointInformation {
            value: DoublePointValue::from_code(s[0]),
            quality: QualityDescriptor::from_byte(s[0] & 0xF0),
        }
    }

    fn decode(buf: &mut Bytes) -> (r: Result<DoublePointInformation, AduError>) {
        let have = bytes_len(buf);
        if have < DoublePointInformation::ENCODED_SIZE {
            return Err(AduError::BufferTooShort { need: DoublePointInformation::ENCODED_SIZE, have });
        }
        let byte = get_u8(buf);
        let value = DoublePointValue::from_raw(byte);
        let quality = QualityDescriptor::from_bits_truncate(byte & 0xF0);
        Ok(DoublePointInformation { value, quality })
    }
}

/// Decoding the encoding of double-point information gives it back, provided
/// that its quality has none of the bits 0-3 set, which the DIQ byte has no room for.
pub proof fn lemma_double_point_info_roundtrip(x: DoublePointInformation, rest: Seq<u8>)
    requires
        x.quality@ & 0x0F == 0,
    ensures
        DoublePointInformation::spec_parse(x.spec_bytes() + rest) == x,
        x.spec_bytes().len() == DoublePointInformation::spec_size(),
{
    let q = x.quality@;
    let c = x.value.code();
    let b = diq_byte(x.value, x.quality);
    assert(b % 4 == c && b & 0xF0 == q && q & 0x0E == 0) by (bit_vector)
        requires
            b == (q & 0xF0) | (c & 0x03),
            q & 0x0F == 0,
            c < 4,
    ;
    crate::types::quality::lemma_quality_from_own_byte(x.quality);
}

/// The DIQ byte (IEC 60870-5-101 7.2.6.2): the state (DPI) in bits 0-1 as
/// 0 intermediate, 1 off, 2 on, 3 indeterminate; the quality flags BL, SB, NT
/// and IV in bits 4-7; bits 2-3 clear. Decoding reads the state from bits 0-1
/// and the flags from bits 4-7.
pub proof fn lemma_diq_layout(x: DoublePointInformation, s: Seq<u8>)
    requires
        s.len() >= 1,
    ensures
        x.spec_bytes().len() == 1,
        x.spec_bytes()[0] as int == 16 * (x.quality@ / 16) + (match x.value {
            DoublePointValue::Intermediate => 0int,
            DoublePointValue::Off => 1int,
            DoublePointValue::On => 2int,
            DoublePointValue::Indeterminate => 3int,
        }),
        DoublePointInformation::spec_parse(s).value == (if s[0] % 4 == 0 {
            DoublePointValue::Intermediate
        } else if s[0] % 4 == 1 {
            DoublePointValue::Off
        } else if s[0] % 4 == 2 {
            DoublePointValue::On
        } else {
            DoublePointValue::Indeterminate
        }),
        DoublePointInformation::spec_parse(s).quality@ as int == 16 * (s[0] / 16),
{
    let c = x.value.code();
    assert(c & 0x03 == c) by {
        assert(c < 4);
        crate::wire::lemma_byte_bits(c);
    }
    crate::wire::lemma_packed_nibble(x.quality@, c);
    crate::wire::lemma_packed_nibble(s[0], 0);
    crate::types::quality::lemma_quality_from_byte(s[0] & 0xF0);
}

} // verus!
