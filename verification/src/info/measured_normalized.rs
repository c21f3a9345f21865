use bytes::{Bytes, BytesMut};
use vstd::prelude::*;

use crate::error::AduError;
use crate::types::QualityDescriptor;
use crate::wire::{
    bytes_len, bytes_mut_seq, bytes_seq, get_i16_le, get_u8, le_u16, put_i16_le, put_u8,
    remaining_mut, signed16, u16_le_seq, unsigned16,
};

use super::traits::{Decode, Encode, put_outcome, short_error};

verus! {

/// Measured value, normalized (NVA + QDS).
///
/// Wire format: 3 bytes
///   - bytes 0-1: normalized value (i16, little-endian)
///   - byte 2: quality descriptor
#[derive(Debug, Clone, Copy, PartialEq, Eq, Structural)]
pub struct MeasuredValueNormalized {
    pub value: i16,
    pub quality: QualityDescriptor,
}

/// The two little-endian bytes of an `i16`.
pub open spec fn i16_bytes(v: i16) -> Seq<u8> {
    u16_le_seq(unsigned16(v as int))
}

/// The `i16` that two little-endian bytes hold.
pub open spec fn i16_of(s: Seq<u8>) -> i16 {
    signed16(le_u16(s[0], s[1])) as i16
}

/// Reading back the two bytes of an `i16`.
pub proof fn lemma_i16_roundtrip(v: i16, rest: Seq<u8>)
    ensures
        i16_of(i16_bytes(v) + rest) == v,
        i16_bytes(v).len() == 2,
{
    crate::wire::lemma_signed16_roundtrip(v as int);
    crate::wire::lemma_u16_le_roundtrip(unsigned16(v as int));
    let s = i16_bytes(v) + rest;
    assert(s[0] == i16_bytes(v)[0] && s[1] == i16_bytes(v)[1]);
}

impl MeasuredValueNormalized {
    pub const ENCODED_SIZE: usize = 3;

    pub fn new(value: i16, quality: QualityDescriptor) -> (r: Self)
        ensures
            r == (MeasuredValueNormalized { value, quality }),
    {
        MeasuredValueNormalized { value, quality }
    }
}

impl Encode for MeasuredValueNormalized {
    open spec fn spec_bytes(&self) -> Seq<u8> {
        i16_bytes(self.value).push(self.quality@)
    }

    fn encode(&self, buf: &mut BytesMut) -> (r: Result<(), AduError>) {
        let have = remaining_mut(buf);
        if have < MeasuredValueNormalized::ENCODED_SIZE {
            return Err(AduError::BufferTooShort { need: MeasuredValueNormalized::ENCODED_SIZE, have });
        }
        put_i16_le(buf, self.value);
        put_u8(buf, self.quality.bits());
        assert(bytes_mut_seq(*final(buf)) =~= bytes_mut_seq(*old(buf)) + self.spec_bytes());
        Ok(())
    }

    fn encoded_size(&self) -> (n: usize) {
        MeasuredValueNormalized::ENCODED_SIZE
    }
}

impl Decode for MeasuredValueNormalized {
    open spec fn spec_size() -> nat {
        3
    }

    open spec fn spec_parse(s: Seq<u8>) -> MeasuredValueNormalized {
        MeasuredValueNormalized { value: i16_of(s), quality: QualityDescriptor::from_byte(s[2]) }
    }

    fn decode(buf: &mut Bytes) -> (r: Result<MeasuredValueNormalized, AduError>) {
        let have = bytes_len(buf);
        if have < MeasuredValueNormalized::ENCODED_SIZE {
            return Err(AduError::BufferTooShort { need: MeasuredValueNormalized::ENCODED_SIZE, have });
        }
        let ghost s = bytes_seq(*buf);
        let value = get_i16_le(buf);
        let quality = QualityDescriptor::from_bits_truncate(get_u8(buf));
        assert(bytes_seq(*buf) =~= s.subrange(3, s.len() as int));
        Ok(MeasuredValueNormalized { value, quality })
    }
}

/// Measured value, normalized without quality descriptor (for M_ME_ND_1).
///
/// Wire format: 2 bytes (i16, little-endian)
#[derive(Debug, Clone, Copy, PartialEq, Eq, Structural)]
pub struct MeasuredValueNormalizedNoQuality {
    pub value: i16,
}

impl MeasuredValueNormalizedNoQuality {
    pub const ENCODED_SIZE: usize = 2;

    pub fn new(value: i16) -> (r: Self)
        ensures
            r.value == value,
    {
        MeasuredValueNormalizedNoQuality { value }
    }
}

impl Encode for MeasuredValueNormalizedNoQuality {
    open spec fn spec_bytes(&self) -> Seq<u8> {
        i16_bytes(self.value)
    }

    fn encode(&self, buf: &mut BytesMut) -> (r: Result<(), AduError>) {
        let have = remaining_mut(buf);
        if have < MeasuredValueNormalizedNoQuality::ENCODED_SIZE {
            return Err(AduError::BufferTooShort { need: MeasuredValueNormalizedNoQuality::ENCODED_SIZE, have });
        }
        put_i16_le(buf, self.value);
        Ok(())
    }

    fn encoded_size(&self) -> (n: usize) {
        MeasuredValueNormalizedNoQuality::ENCODED_SIZE
    }
}

impl Decode for MeasuredValueNormalizedNoQuality {
    open spec fn spec_size() -> nat {
        2
    }

    open spec fn spec_parse(s: Seq<u8>) -> MeasuredValueNormalizedNoQuality {
        MeasuredValueNormalizedNoQuality { value: i16_of(s) }
    }

    fn decode(buf: &mut Bytes) -> (r: Result<MeasuredValueNormalizedNoQuality, AduError>) {
        let have = bytes_len(buf);
        if have < MeasuredValueNormalizedNoQuality::ENCODED_SIZE {
            return Err(AduError::BufferTooShort { need: MeasuredValueNormalizedNoQuality::ENCODED_SIZE, have });
        }
        let value = get_i16_le(buf);
        Ok(MeasuredValueNormalizedNoQuality { value })
    }
}

/// Decoding the encoding of a normalized value gives it back, provided that
/// its quality holds only known flags.
pub proof fn lemma_normalized_roundtrip(x: MeasuredValueNormalized, rest: Seq<u8>)
    requires
        x.quality@ & 0x0E == 0,
    ensures
        MeasuredValueNormalized::spec_parse(x.spec_bytes() + rest) == x,
        x.spec_bytes().len() == MeasuredValueNormalized::spec_size(),
{
    lemma_i16_roundtrip(x.value, seq![x.quality@]);
    assert(i16_bytes(x.value).push(x.quality@) =~= i16_bytes(x.value) + seq![x.quality@]);
    crate::types::quality::lemma_quality_from_own_byte(x.quality);
}

/// Decoding the encoding of a normalized value without quality gives it back.
pub proof fn lemma_normalized_no_quality_roundtrip(x: MeasuredValueNormalizedNoQuality, rest: Seq<u8>)
    ensures
        MeasuredValueNormalizedNoQuality::spec_parse(x.spec_bytes() + rest) == x,
        x.spec_bytes().len() == MeasuredValueNormalizedNoQuality::spec_size(),
{
    lemma_i16_roundtrip(x.value, Seq::empty());
    assert(i16_bytes(x.value) + Seq::<u8>::empty() =~= i16_bytes(x.value));
}

/// A QDS byte as read: the flags OV (bit 0), BL, SB, NT and IV (bits 4-7)
/// of the byte, bits 1-3 dropped.
pub open spec fn qds_read(b: u8) -> int {
    16 * (b / 16) + b % 2
}

/// The wire layout of a normalized value with quality (IEC 60870-5-101
/// 7.2.6.6 and 7.2.6.3): the value as a 16-bit two's complement number, low
/// byte first, then the QDS byte. Decoding reads the same layout.
pub proof fn lemma_normalized_layout(x: MeasuredValueNormalized, s: Seq<u8>)
    requires
        s.len() >= 3,
    ensures
        x.spec_bytes().len() == 3,
        (x.spec_bytes()[0] as int + 256 * x.spec_bytes()[1] as int - x.value as int) % 65536 == 0,
        x.spec_bytes()[2] == x.quality@,
        (MeasuredValueNormalized::spec_parse(s).value as int - (s[0] as int + 256 * s[1] as int)) % 65536 == 0,
        MeasuredValueNormalized::spec_parse(s).quality@ as int == qds_read(s[2]),
{
    lemma_i16_roundtrip(x.value, seq![x.quality@]);
    crate::wire::lemma_u16_le_roundtrip(unsigned16(x.value as int));
    crate::wire::lemma_byte_bits(s[2]);
    crate::types::quality::lemma_quality_from_byte(s[2]);
}

/// The wire layout of a normalized value without quality (IEC 60870-5-101
/// 7.2.6.6): the value as a 16-bit two's complement number, low byte first.
pub proof fn lemma_normalized_no_quality_layout(x: MeasuredValueNormalizedNoQuality, s: Seq<u8>)
    requires
        s.len() >= 2,
    ensures
        x.spec_bytes().len() == 2,
        (x.spec_bytes()[0] as int + 256 * x.spec_bytes()[1] as int - x.value as int) % 65536 == 0,
        (MeasuredValueNormalizedNoQuality::spec_parse(s).value as int - (s[0] as int + 256 * s[1] as int))
            % 65536 == 0,
{
    lemma_i16_roundtrip(x.value, Seq::empty());
    crate::wire::lemma_u16_le_roundtrip(unsigned16(x.value as int));
}

} // verus!
