use bytes::{Bytes, BytesMut};
use vstd::prelude::*;

use crate::error::AduError;
use crate::types::app_layer_params::{app_values_valid, header_size, AppLayerValues};
use crate::types::{AppLayerParameters, CauseOfTransmission, CommonAddress, OriginatorAddress, TypeId};
use crate::wire::{
    bytes_len, bytes_mut_max_len, bytes_mut_seq, bytes_seq, get_u16_le, get_u8, le_u16, put_u16_le,
    put_u8, remaining_mut, u16_le_seq,
};

verus! {

/// ASDU header: type identification, variable structure qualifier, cause of
/// transmission, and common address.
#[derive(Debug, Clone, Copy, PartialEq, Eq, Structural)]
pub struct AsduHeader {
    pub type_id: TypeId,
    /// SQ flag — when true, information objects have sequential IOAs.
    pub is_sequence: bool,
    /// Number of information objects (0-127).
    pub num_objects: u8,
    pub cause: CauseOfTransmission,
    /// Test bit from the COT byte.
    pub is_test: bool,
    /// Positive/Negative confirmation bit from the COT byte.
    pub is_negative: bool,
    /// Originator address (byte 1 of COT when `size_of_cot == 2`).
    pub originator_address: OriginatorAddress,
    /// Common address of ASDU (1-2 bytes depending on `size_of_ca`).
    pub common_address: CommonAddress,
}

/// The variable structure qualifier: SQ in bit 7, the number of objects below.
pub open spec fn vsq_byte(h: AsduHeader) -> u8 {
    (if h.is_sequence { 0x80u8 } else { 0u8 }) | h.num_objects
}

/// The first COT byte: the cause in bits 0-5, P/N in bit 6, T in bit 7.
pub open spec fn cot_byte(h: AsduHeader) -> u8 {
    (h.cause.code() & 0x3F) | (if h.is_negative { 0x40u8 } else { 0u8 }) | (if h.is_test {
        0x80u8
    } else {
        0u8
    })
}

/// The wire bytes of a header: type, VSQ, COT (with the originator where the
/// COT has two bytes) and the common address in one or two bytes.
pub open spec fn header_bytes(h: AsduHeader, v: AppLayerValues) -> Seq<u8> {
    seq![h.type_id.code(), vsq_byte(h), cot_byte(h)] + (if v.size_of_cot >= 2 {
        seq![h.originator_address.0]
    } else {
        Seq::empty()
    }) + (if v.size_of_ca >= 2 {
        u16_le_seq(h.common_address.0 as int)
    } else {
        seq![h.common_address.0 as u8]
    })
}

/// What encoding a header into a buffer holding `old` gives: the room is
/// checked first, then the number of objects; nothing is written on error.
pub open spec fn header_encode_outcome(h: AsduHeader, v: AppLayerValues, old: Seq<u8>) -> (
    Result<(), AduError>,
    Seq<u8>,
) {
    let need = header_size(v);
    if bytes_mut_max_len() - old.len() < need {
        (
            Err(AduError::BufferTooShort { need: need as usize, have: (bytes_mut_max_len() - old.len()) as usize }),
            old,
        )
    } else if h.num_objects > 127 {
        (Err(AduError::NumObjectsOverflow(h.num_objects)), old)
    } else {
        (Ok(()), old + header_bytes(h, v))
    }
}

/// The offset of the common address: after type, VSQ and the COT bytes.
pub open spec fn ca_offset(v: AppLayerValues) -> int {
    if v.size_of_cot >= 2 {
        4
    } else {
        3
    }
}

/// The header that the first bytes of `s` hold, read without checks.
pub open spec fn header_fields(s: Seq<u8>, v: AppLayerValues, t: TypeId, c: CauseOfTransmission) -> AsduHeader {
    let k = ca_offset(v);
    AsduHeader {
        type_id: t,
        is_sequence: s[1] & 0x80 != 0,
        num_objects: s[1] & 0x7F,
        cause: c,
        is_test: s[2] & 0x80 != 0,
        is_negative: s[2] & 0x40 != 0,
        originator_address: if v.size_of_cot >= 2 {
            OriginatorAddress(s[3])
        } else {
            OriginatorAddress(0)
        },
        common_address: if v.size_of_ca >= 2 {
            CommonAddress(le_u16(s[k], s[k + 1]) as u16)
        } else {
            CommonAddress(s[k] as u16)
        },
    }
}

/// What decoding a header from the front of `s` gives, and how many bytes it
/// takes (also on error: the type byte, or type, VSQ and COT, are read before
/// they are rejected).
pub open spec fn header_decode(s: Seq<u8>, v: AppLayerValues) -> (Result<AsduHeader, AduError>, int) {
    let need = header_size(v);
    if s.len() < need {
        (Err(AduError::BufferTooShort { need: need as usize, have: s.len() as usize }), 0)
    } else {
        match TypeId::from_code(s[0]) {
            None => (Err(AduError::InvalidTypeId(s[0])), 1),
            Some(t) => match CauseOfTransmission::from_code(s[2] & 0x3F) {
                None => (Err(AduError::InvalidCauseOfTransmission(s[2] & 0x3F)), 3),
                Some(c) => (Ok(header_fields(s, v, t, c)), need),
            },
        }
    }
}

/// A header that its encoding under `v` carries in full: at most 127
/// objects, no originator where the COT has one byte, and a one-byte common
/// address where the CA has one byte.
pub open spec fn header_canonical(h: AsduHeader, v: AppLayerValues) -> bool {
    &&& h.num_objects <= 127
    &&& v.size_of_cot < 2 ==> h.originator_address.0 == 0
    &&& v.size_of_ca < 2 ==> h.common_address.0 < 256
}

impl AsduHeader {
    /// Encoded header size for the given parameters.
    pub fn encoded_size(params: &AppLayerParameters) -> (r: usize)
        ensures
            r == header_size(params@),
    {
        params.asdu_header_size()
    }

    /// Decode an ASDU header from the buffer.
    pub fn decode(buf: &mut Bytes, params: &AppLayerParameters) -> (r: Result<Self, AduError>)
        ensures
            r == header_decode(bytes_seq(*old(buf)), params@).0,
            bytes_seq(*final(buf)) == bytes_seq(*old(buf)).subrange(
                header_decode(bytes_seq(*old(buf)), params@).1,
                bytes_seq(*old(buf)).len() as int,
            ),
    {
        proof {
            use_type_invariant(params);
        }
        let ghost s = bytes_seq(*buf);
        let need = params.asdu_header_size();
        let have = bytes_len(buf);
        if have < need {
            assert(s.subrange(0, s.len() as int) =~= s);
            return Err(AduError::BufferTooShort { need, have });
        }
        // Type ID (1 byte)

        let type_id_raw = get_u8(buf);
        let type_id = match TypeId::from_u8(type_id_raw) {
            Ok(t) => t,
            Err(_) => {
                return Err(AduError::InvalidTypeId(type_id_raw));
            },
        };
        // VSQ (1 byte): bit 7 = SQ, bits 0-6 = number of objects
        let vsq = get_u8(buf);
        let is_sequence = (vsq & 0x80) != 0;
        let num_objects = vsq & 0x7F;
        // COT byte 0: bits 0-5 = cause, bit 6 = P/N, bit 7 = T
        let cot_byte0 = get_u8(buf);
        let cause_raw = cot_byte0 & 0x3F;
        let is_negative = (cot_byte0 & 0x40) != 0;
        let is_test = (cot_byte0 & 0x80) != 0;
        let cause = match CauseOfTransmission::from_u8(cause_raw) {
            Ok(c) => c,
            Err(_) => {
                assert(bytes_seq(*buf) =~= s.subrange(3, s.len() as int));
                return Err(AduError::InvalidCauseOfTransmission(cause_raw));
            },
        };
        // COT byte 1 (originator address, if size_of_cot == 2)
        let originator_address = if params.size_of_cot() >= 2 {
            OriginatorAddress::new(get_u8(buf))
        } else {
            OriginatorAddress::default()
        };
        // Common address (1-2 bytes LE)
        let common_address = if params.size_of_ca() >= 2 {
            CommonAddress::new(get_u16_le(buf))
        } else {
            CommonAddress::new(get_u8(buf) as u16)
        };
        assert(bytes_seq(*buf) =~= s.subrange(need as int, s.len() as int));
        Ok(AsduHeader {
            type_id,
            is_sequence,
            num_objects,
            cause,
            is_test,
            is_negative,
            originator_address,
            common_address,
        })
    }

    /// Encode the ASDU header into the buffer.
    pub fn encode(&self, buf: &mut BytesMut, params: &AppLayerParameters) -> (r: Result<(), AduError>)
        ensures
            (r, bytes_mut_seq(*final(buf))) == header_encode_outcome(*self, params@, bytes_mut_seq(*old(buf))),
    {
        proof {
            use_type_invariant(params);
        }
        let ghost old_s = bytes_mut_seq(*buf);
        let need = params.asdu_header_size();
        let have = remaining_mut(buf);
        if have < need {
            return Err(AduError::BufferTooShort { need, have });
        }
        if self.num_objects > 127 {
            return Err(AduError::NumObjectsOverflow(self.num_objects));
        }
        // Type ID

        put_u8(buf, self.type_id.as_u8());
        // VSQ
        let vsq = (if self.is_sequence { 0x80u8 } else { 0u8 }) | self.num_objects;
        put_u8(buf, vsq);
        // COT byte 0
        let cot_byte0 = (self.cause.as_u8() & 0x3F) | (if self.is_negative { 0x40u8 } else { 0u8 }) | (
        if self.is_test {
            0x80u8
        } else {
            0u8
        });
        put_u8(buf, cot_byte0);
        let ghost mid = bytes_mut_seq(*buf);
        assert(mid =~= old_s + seq![self.type_id.code(), vsq_byte(*self), cot_byte(*self)]);
        // COT byte 1
        if params.size_of_cot() >= 2 {
            put_u8(buf, self.originator_address.value());
        }
        let ghost mid2 = bytes_mut_seq(*buf);
        assert(mid2 =~= mid + (if params@.size_of_cot >= 2 {
            seq![self.originator_address.0]
        } else {
            Seq::empty()
        }));
        // Common address
        if params.size_of_ca() >= 2 {
            put_u16_le(buf, self.common_address.value());
        } else {
            put_u8(buf, self.common_address.value() as u8);
        }
        assert(bytes_mut_seq(*buf) =~= old_s + header_bytes(*self, params@));
        Ok(())
    }
}

/// A decoded header counts at most 127 objects, and decoding takes no more
/// bytes than there are.
pub proof fn lemma_header_decode_bounds(s: Seq<u8>, v: AppLayerValues)
    requires
        app_values_valid(v),
    ensures
        0 <= header_decode(s, v).1 <= s.len(),
        header_decode(s, v).0 matches Ok(h) ==> h.num_objects <= 127,
{
    if s.len() >= header_size(v) {
        let b = s[1];
        assert(b & 0x7F <= 127) by (bit_vector);
    }
}

/// The wire layout of the data unit identifier (IEC 60870-5-101 7.1-7.2.4):
/// the type identification; the variable structure qualifier with the
/// number of objects in bits 0-6 and SQ in bit 7; the cause of transmission
/// in bits 0-5 with P/N in bit 6 and T in bit 7; the originator address where
/// the cause of transmission has two bytes; then the common address, low byte
/// first where it has two bytes.
pub proof fn lemma_header_wire_layout(h: AsduHeader, v: AppLayerValues)
    requires
        h.num_objects < 128,
    ensures
        header_bytes(h, v).len() == 3 + (if v.size_of_cot >= 2 {
            1int
        } else {
            0
        }) + (if v.size_of_ca >= 2 {
            2int
        } else {
            1
        }),
        header_bytes(h, v)[0] == h.type_id.code(),
        header_bytes(h, v)[1] as int == h.num_objects + (if h.is_sequence {
            128int
        } else {
            0
        }),
        header_bytes(h, v)[2] as int == h.cause.code() + (if h.is_negative {
            64int
        } else {
            0
        }) + (if h.is_test {
            128int
        } else {
            0
        }),
        v.size_of_cot >= 2 ==> header_bytes(h, v)[3] == h.originator_address.0,
        v.size_of_ca >= 2 ==> header_bytes(h, v)[ca_offset(v)] as int + 256 * header_bytes(h, v)[ca_offset(v)
            + 1] as int == h.common_address.0,
        v.size_of_ca < 2 ==> header_bytes(h, v)[ca_offset(v)] as int == h.common_address.0 % 256,
{
    crate::types::cause_of_transmission::lemma_cot_code_roundtrip(h.cause);
    crate::wire::lemma_packed_six_and_flags(h.cause.code(), h.is_negative, h.is_test);
    crate::wire::lemma_packed_seven_and_flag(h.num_objects, if h.is_sequence { 1u8 } else { 0u8 });
    crate::wire::lemma_u16_le_roundtrip(h.common_address.0 as int);
    crate::wire::lemma_byte_bits(h.num_objects);
    let x = h.common_address.0;
    assert((x as u8) as u16 == x % 256) by (bit_vector);
}

/// Decoding the data unit identifier reads the same layout: SQ from bit 7
/// and the number of objects from bits 0-6 of the second byte; T from bit 7,
/// P/N from bit 6 and the cause from bits 0-5 of the third.
pub proof fn lemma_header_wire_read(s: Seq<u8>, v: AppLayerValues)
    ensures
        header_decode(s, v).0 matches Ok(h) ==> {
            &&& h.type_id.code() == s[0]
            &&& h.is_sequence == (s[1] >= 128)
            &&& h.num_objects as int == s[1] % 128
            &&& h.is_test == (s[2] >= 128)
            &&& h.is_negative == ((s[2] / 64) % 2 == 1)
            &&& h.cause.code() as int == s[2] % 64
        },
{
    if s.len() >= header_size(v) {
        crate::wire::lemma_byte_bits(s[1]);
        crate::wire::lemma_byte_bits(s[2]);
        crate::types::type_id::lemma_type_id_decode_is_code(s[0]);
        crate::types::cause_of_transmission::lemma_cot_decode_is_code(s[2] & 0x3F);
    }
}

/// Decoding the encoding of a header that its encoding carries in full gives
/// it back, and takes exactly the header's bytes.
pub proof fn lemma_header_roundtrip(h: AsduHeader, v: AppLayerValues, rest: Seq<u8>)
    requires
        app_values_valid(v),
        header_canonical(h, v),
    ensures
        header_bytes(h, v).len() == header_size(v),
        header_decode(header_bytes(h, v) + rest, v) == (Ok::<AsduHeader, AduError>(h), header_size(v)),
{
    let s = header_bytes(h, v) + rest;
    let n = h.num_objects;
    let sq = h.is_sequence;
    let neg = h.is_negative;
    let test = h.is_test;
    let code = h.cause.code();
    crate::types::type_id::lemma_type_id_code_roundtrip(h.type_id);
    crate::types::cause_of_transmission::lemma_cot_code_roundtrip(h.cause);
    let vsq = vsq_byte(h);
    let cot = cot_byte(h);
    assert(vsq & 0x80 != 0 <==> sq) by (bit_vector)
        requires
            vsq == (if sq { 0x80u8 } else { 0u8 }) | n,
            n <= 127,
    ;
    assert(vsq & 0x7F == n) by (bit_vector)
        requires
            vsq == (if sq { 0x80u8 } else { 0u8 }) | n,
            n <= 127,
    ;
    assert(cot & 0x3F == code && (cot & 0x80 != 0 <==> test) && (cot & 0x40 != 0 <==> neg)) by (bit_vector)
        requires
            cot == (code & 0x3F) | (if neg { 0x40u8 } else { 0u8 }) | (if test { 0x80u8 } else { 0u8 }),
            code < 64,
    ;
    assert(s[0] == h.type_id.code());
    assert(s[1] == vsq);
    assert(s[2] == cot);
    let k = ca_offset(v);
    if v.size_of_cot >= 2 {
        assert(s[3] == h.originator_address.0);
    }
    if v.size_of_ca >= 2 {
        crate::wire::lemma_u16_le_roundtrip(h.common_address.0 as int);
        assert(s[k] == u16_le_seq(h.common_address.0 as int)[0]);
        assert(s[k + 1] == u16_le_seq(h.common_address.0 as int)[1]);
    } else {
        assert(s[k] == h.common_address.0 as u8);
    }
    let d = header_fields(s, v, h.type_id, h.cause);
    assert(d.originator_address == h.originator_address);
    assert(d.common_address == h.common_address);
}

} // verus!
