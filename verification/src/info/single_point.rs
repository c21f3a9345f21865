use bytes::{Bytes, BytesMut};
use vstd::prelude::*;

use crate::error::AduError;
use crate::types::QualityDescriptor;
use crate::wire::{bytes_len, bytes_mut_seq, bytes_seq, get_u8, put_u8, remaining_mut};

use super::traits::{Decode, Encode, put_outcome, short_error};

verus! {

/// Single-point information (SIQ).
///
/// Wire format: 1 byte
///   - bit 0: SPI (single-point value, true = ON)
///   - bits 4-7: quality descriptor (BL, SB, NT, IV)
#[derive(Debug, Clone, Copy, PartialEq, Eq, Structural)]
pub struct SinglePointInformation {
    pub value: bool,
    pub quality: QualityDescriptor,
}

/// The SIQ byte: the upper four quality bits and the value in bit 0.
pub open spec fn siq_byte(value: bool, quality: QualityDescriptor) -> u8 {
    (quality@ & 0xF0) | (if value { 1u8 } else { 0u8 })
}

impl SinglePointInformation {
    pub const ENCODED_SIZE: usize = 1;

    pub fn new(value: bool, quality: QualityDescriptor) -> (r: Self)
        ensures
            r == (SinglePointInformation { value, quality }),
    {
        SinglePointInformation { value, quality }
    }
}

impl Encode for SinglePointInformation {
    open spec fn spec_bytes(&self) -> Seq<u8> {
        seq![siq_byte(self.value, self.quality)]
    }

    fn encode(&self, buf: &mut BytesMut) -> (r: Result<(), AduError>) {
        let have = remaining_mut(buf);
        if have < SinglePointInformation::ENCODED_SIZE {
            return Err(AduError::BufferTooShort { need: SinglePointInformation::ENCODED_SIZE, have });
        }
        let byte = (self.quality.bits() & 0xF0) | (if self.value { 1u8 } else { 0u8 });
        put_u8(buf, byte);
        assert(bytes_mut_seq(*old(buf)).push(byte) =~= bytes_mut_seq(*old(buf)) + self.spec_bytes());
        Ok(())
    }

    fn encoded_size(&self) -> (n: usize) {
        SinglePointInformation::ENCODED_SIZE
    }
}

impl Decode for SinglePointInformation {
    open spec fn spec_size() -> nat {
        1
    }

    open spec fn spec_parse(s: Seq<u8>) -> SinglePointInformation {
        SinglePointInformation {
            value: s[0] & 0x01 != 0,
            quality: QualityDescriptor::from_byte(s[0] & 0xF0),
        }
    }

    fn decode(buf: &mut Bytes) -> (r: Result<SinglePointInformation, AduError>) {
        let have = bytes_len(buf);
        if have < SinglePointInformation::ENCODED_SIZE {
            return Err(AduError::BufferTooShort { need: SinglePointInformation::ENCODED_SIZE, have });
        }
        let byte = get_u8(buf);
        let value = byte & 0x01 != 0;
        let quality = QualityDescriptor::from_bits_truncate(byte & 0xF0);
        Ok(SinglePointInformation { value, quality })
    }
}

/// Decoding the encoding of single-point information gives it back, provided
/// that its quality has none of the bits 1-3 set and not OV (bit 0), which the
/// SIQ byte has no room for.
pub proof fn lemma_single_point_roundtrip(x: SinglePointInformation, rest: Seq<u8>)
    requires
        x.quality@ & 0x0F == 0,
    ensures
        SinglePointInformation::spec_parse(x.spec_bytes() + rest) == x,
        x.spec_bytes().len() == SinglePointInformation::spec_size(),
{
    let q = x.quality@;
    let v = x.value;
    let b = siq_byte(v, x.quality);
    assert((b & 0x01 != 0) == v && b & 0xF0 == q && q & 0x0E == 0) by (bit_vector)
        requires
            b == (q & 0xF0) | (if v { 1u8 } else { 0u8 }),
            q & 0x0F == 0,
    ;
    crate::types::quality::lemma_quality_from_own_byte(x.quality);
}

/// The SIQ byte (IEC 60870-5-101 7.2.6.1): the value (SPI) in bit 0, the
/// quality flags BL, SB, NT and IV in bits 4-7, bits 1-3 clear. Decoding
/// reads the value from bit 0 and the flags from bits 4-7.
pub proof fn lemma_siq_layout(x: SinglePointInformation, s: Seq<u8>)
    requires
        s.len() >= 1,
    ensures
        x.spec_bytes().len() == 1,
        x.spec_bytes()[0] as int == 16 * (x.quality@ / 16) + (if x.value {
            1int
        } else {
            0
        }),
        SinglePointInformation::spec_parse(s).value == (s[0] % 2 == 1),
        SinglePointInformation::spec_parse(s).quality@ as int == 16 * (s[0] / 16),
{
    crate::wire::lemma_packed_nibble(x.quality@, if x.value { 1u8 } else { 0u8 });
    crate::wire::lemma_packed_nibble(s[0], 0);
    crate::wire::lemma_byte_bits(s[0]);
    crate::types::quality::lemma_quality_from_byte(s[0] & 0xF0);
}

} // verus!
