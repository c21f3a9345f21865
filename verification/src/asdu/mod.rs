pub mod builder;
pub mod header;
pub mod ioa;
pub mod layout;

use bytes::{Bytes, BytesMut};
use vstd::prelude::*;

use crate::error::AduError;
use crate::info::traits::Encode;
use crate::info::InformationObject;
use crate::types::app_layer_params::header_size;
use crate::types::AppLayerParameters;
use crate::wire::{bytes_mut_seq, bytes_seq};

use layout::{
    addressed_chunks, asdu_decode, asdu_encode_outcome, asdu_size, breaks_sequence, joined,
    first_where, objects_decode_sq0, objects_decode_sq1, objects_encode, payload_chunks,
    type_differs,
};

pub use builder::AsduBuilder;
pub use header::AsduHeader;
pub use ioa::InformationObjectAddress;

verus! {

/// An information object paired with its address.
///
/// Generic over the object type `T`, allowing use with both the
/// [`InformationObject`] enum and specific typed objects.
#[derive(Debug, Clone, Copy, PartialEq)]
pub struct Indexed<T> {
    pub address: InformationObjectAddress,
    pub value: T,
}

/// Application Service Data Unit — header plus a collection of addressed
/// information objects.
#[derive(Debug, Clone, PartialEq)]
pub struct Asdu {
    pub header: AsduHeader,
    pub objects: Vec<Indexed<InformationObject>>,
}

/// An ASDU as a value: its header and the sequence of its objects.
pub struct AsduView {
    pub header: AsduHeader,
    pub objects: Seq<Indexed<InformationObject>>,
}

impl View for Asdu {
    type V = AsduView;

    open spec fn view(&self) -> AsduView {
        AsduView { header: self.header, objects: self.objects@ }
    }
}

/// What encoding an ASDU needs beyond its contents: a size count that fits
/// in `usize`, and for SQ = 1 addresses that count up from the first without
/// passing 2^32 (the address arithmetic is 32-bit).
pub open spec fn asdu_encodable(a: AsduView) -> bool {
    &&& 15 * a.objects.len() + 6 <= usize::MAX
    &&& a.header.is_sequence && a.objects.len() > 1 ==> a.objects[0].address@ + a.objects.len() <= 0x1_0000_0000
}

/// A decoded ASDU as a value, or the error.
pub open spec fn asdu_result_view(r: Result<Asdu, AduError>) -> Result<AsduView, AduError> {
    match r {
        Ok(a) => Ok(a@),
        Err(e) => Err(e),
    }
}

/// Decoded objects as a sequence, or the error.
pub open spec fn objects_result_view(r: Result<Vec<Indexed<InformationObject>>, AduError>) -> Result<
    Seq<Indexed<InformationObject>>,
    AduError,
> {
    match r {
        Ok(v) => Ok(v@),
        Err(e) => Err(e),
    }
}

/// Decodes the objects of SQ = 1 that `header` announces: one address, then
/// payloads whose addresses count up from it.
#[verifier::spinoff_prover]
#[verifier::rlimit(40)]
fn decode_sequence(header: &AsduHeader, buf: &mut Bytes, size_of_ioa: u8) -> (r: Result<
    Vec<Indexed<InformationObject>>,
    AduError,
>)
    requires
        1 <= size_of_ioa <= 3,
        1 <= header.num_objects <= 127,
        header.is_sequence,
    ensures
        objects_result_view(r) == objects_decode_sq1(
            header.type_id,
            bytes_seq(*old(buf)),
            size_of_ioa as nat,
            header.num_objects as int,
        ).0,
        0 <= objects_decode_sq1(
            header.type_id,
            bytes_seq(*old(buf)),
            size_of_ioa as nat,
            header.num_objects as int,
        ).1 <= bytes_seq(*old(buf)).len(),
        bytes_seq(*final(buf)) == bytes_seq(*old(buf)).subrange(
            objects_decode_sq1(
                header.type_id,
                bytes_seq(*old(buf)),
                size_of_ioa as nat,
                header.num_objects as int,
            ).1,
            bytes_seq(*old(buf)).len() as int,
        ),
{
    let ghost t = bytes_seq(*buf);
    let ghost k = size_of_ioa as nat;
    let n = header.num_objects as usize;
    let mut objects: Vec<Indexed<InformationObject>> = Vec::new();
    let ghost mut consumed: int = 0;
    let base_ioa = match InformationObjectAddress::decode(buf, size_of_ioa) {
        Ok(a) => a,
        Err(e) => {
            proof {
                lemma_sq1_err_stays(header.type_id, t, k, 1, n as int);
                assert(t.subrange(0, t.len() as int) =~= t);
            }
            return Err(e);
        },
    };
    proof {
        ioa::lemma_ioa_value_bound(t, k);
        InformationObjectAddress::lemma_spec_new(ioa::ioa_value(t, k), base_ioa);
    }
    let ghost mid = bytes_seq(*buf);
    proof {
        crate::info::lemma_decode_takes_at_most(header.type_id, mid);
    }
    let first = match InformationObject::decode(header.type_id, buf) {
        Ok(o) => o,
        Err(e) => {
            proof {
                lemma_sq1_err_stays(header.type_id, t, k, 1, n as int);
                assert(mid.subrange(InformationObject::spec_decode(header.type_id, mid).1, mid.len() as int)
                    =~= t.subrange(k + InformationObject::spec_decode(header.type_id, mid).1, t.len() as int));
            }
            return Err(e);
        },
    };
    objects.push(Indexed { address: base_ioa, value: first });
    proof {
        consumed = k + InformationObject::spec_decode(header.type_id, mid).1;
        assert(mid.subrange(InformationObject::spec_decode(header.type_id, mid).1, mid.len() as int)
            =~= t.subrange(consumed, t.len() as int));
        assert(objects@ =~= seq![Indexed { address: base_ioa, value: first }]);
    }
    let mut i: usize = 1;
    while i < n
        invariant
            1 <= i <= n <= 127,
            1 <= k <= 3,
            size_of_ioa == k,
            n == header.num_objects,
            header.is_sequence,
            objects@.len() == i,
            objects@[0].address == base_ioa,
            base_ioa@ <= ioa::IOA_MAX,
            objects_decode_sq1(header.type_id, t, k, i as int) == (
                Ok::<Seq<Indexed<InformationObject>>, AduError>(objects@),
                consumed,
            ),
            0 <= consumed <= t.len(),
            t == bytes_seq(*old(buf)),
            bytes_seq(*buf) == t.subrange(consumed, t.len() as int),
        decreases n - i,
    {
        let ioa = match InformationObjectAddress::try_new(base_ioa.value() + i as u32) {
            Ok(a) => a,
            Err(e) => {
                proof {
                    assert(objects@[0].address@ + i > ioa::IOA_MAX);
                    assert(objects_decode_sq1(header.type_id, t, k, i as int + 1) == (
                        Err::<Seq<Indexed<InformationObject>>, AduError>(AduError::IoaOverflow(e)),
                        consumed,
                    ));
                    lemma_sq1_err_stays(header.type_id, t, k, i as int + 1, n as int);
                }
                return Err(AduError::IoaOverflow(e));
            },
        };
        let ghost before = bytes_seq(*buf);
        proof {
            crate::info::lemma_decode_takes_at_most(header.type_id, before);
        }
        let obj = match InformationObject::decode(header.type_id, buf) {
            Ok(o) => o,
            Err(e) => {
                proof {
                    lemma_sq1_err_stays(header.type_id, t, k, i as int + 1, n as int);
                    assert(before.subrange(
                        InformationObject::spec_decode(header.type_id, before).1,
                        before.len() as int,
                    ) =~= t.subrange(
                        consumed + InformationObject::spec_decode(header.type_id, before).1,
                        t.len() as int,
                    ));
                }
                return Err(e);
            },
        };
        objects.push(Indexed { address: ioa, value: obj });
        proof {
            let c2 = consumed + InformationObject::spec_decode(header.type_id, before).1;
            assert(before.subrange(
                InformationObject::spec_decode(header.type_id, before).1,
                before.len() as int,
            ) =~= t.subrange(c2, t.len() as int));
            consumed = c2;
        }
        i = i + 1;
    }
    Ok(objects)
}

/// Decodes the objects of SQ = 0 that `header` announces, each with its own address.
#[verifier::spinoff_prover]
#[verifier::rlimit(40)]
fn decode_individual(header: &AsduHeader, buf: &mut Bytes, size_of_ioa: u8) -> (r: Result<
    Vec<Indexed<InformationObject>>,
    AduError,
>)
    requires
        1 <= size_of_ioa <= 3,
        header.num_objects <= 127,
        !header.is_sequence,
    ensures
        objects_result_view(r) == objects_decode_sq0(
            header.type_id,
            bytes_seq(*old(buf)),
            size_of_ioa as nat,
            header.num_objects as int,
        ).0,
        0 <= objects_decode_sq0(
            header.type_id,
            bytes_seq(*old(buf)),
            size_of_ioa as nat,
            header.num_objects as int,
        ).1 <= bytes_seq(*old(buf)).len(),
        bytes_seq(*final(buf)) == bytes_seq(*old(buf)).subrange(
            objects_decode_sq0(
                header.type_id,
                bytes_seq(*old(buf)),
                size_of_ioa as nat,
                header.num_objects as int,
            ).1,
            bytes_seq(*old(buf)).len() as int,
        ),
{
    let ghost t = bytes_seq(*buf);
    let ghost k = size_of_ioa as nat;
    let n = header.num_objects as usize;
    let mut objects: Vec<Indexed<InformationObject>> = Vec::new();
    let ghost mut consumed: int = 0;
    let mut i: usize = 0;
    while i < n
        invariant
            i <= n <= 127,
            1 <= k <= 3,
            size_of_ioa == k,
            n == header.num_objects,
            !header.is_sequence,
            objects@.len() == i,
            objects_decode_sq0(header.type_id, t, k, i as int) == (
                Ok::<Seq<Indexed<InformationObject>>, AduError>(objects@),
                consumed,
            ),
            0 <= consumed <= t.len(),
            t == bytes_seq(*old(buf)),
            bytes_seq(*buf) == t.subrange(consumed, t.len() as int),
        decreases n - i,
    {
        let ghost before = bytes_seq(*buf);
        let ioa = match InformationObjectAddress::decode(buf, size_of_ioa) {
            Ok(a) => a,
            Err(e) => {
                proof {
                    assert(objects_decode_sq0(header.type_id, t, k, i as int + 1) == (
                        Err::<Seq<Indexed<InformationObject>>, AduError>(e),
                        consumed,
                    ));
                    lemma_sq0_err_stays(header.type_id, t, k, i as int + 1, n as int);
                }
                return Err(e);
            },
        };
        let ghost mid = bytes_seq(*buf);
        proof {
            crate::info::lemma_decode_takes_at_most(header.type_id, mid);
        }
        let obj = match InformationObject::decode(header.type_id, buf) {
            Ok(o) => o,
            Err(e) => {
                proof {
                    lemma_sq0_err_stays(header.type_id, t, k, i as int + 1, n as int);
                    assert(mid =~= before.subrange(k as int, before.len() as int));
                    assert(mid.subrange(InformationObject::spec_decode(header.type_id, mid).1, mid.len() as int)
                        =~= t.subrange(
                        consumed + k + InformationObject::spec_decode(header.type_id, mid).1,
                        t.len() as int,
                    ));
                }
                return Err(e);
            },
        };
        objects.push(Indexed { address: ioa, value: obj });
        proof {
            let c2 = consumed + k + InformationObject::spec_decode(header.type_id, mid).1;
            assert(mid =~= before.subrange(k as int, before.len() as int));
            assert(mid.subrange(InformationObject::spec_decode(header.type_id, mid).1, mid.len() as int)
                =~= t.subrange(c2, t.len() as int));
            consumed = c2;
        }
        i = i + 1;
    }
    assert(t.subrange(0, t.len() as int) =~= t);
    Ok(objects)
}

/// Decodes the objects that `header` announces, `size_of_ioa` bytes per address.
fn decode_objects(header: &AsduHeader, buf: &mut Bytes, size_of_ioa: u8) -> (r: Result<
    Vec<Indexed<InformationObject>>,
    AduError,
>)
    requires
        1 <= size_of_ioa <= 3,
        header.num_objects <= 127,
    ensures
        objects_result_view(r) == layout::body_decode(*header, bytes_seq(*old(buf)), size_of_ioa as nat).0,
        0 <= layout::body_decode(*header, bytes_seq(*old(buf)), size_of_ioa as nat).1 <= bytes_seq(
            *old(buf),
        ).len(),
        bytes_seq(*final(buf)) == bytes_seq(*old(buf)).subrange(
            layout::body_decode(*header, bytes_seq(*old(buf)), size_of_ioa as nat).1,
            bytes_seq(*old(buf)).len() as int,
        ),
{
    if header.is_sequence {
        if header.num_objects == 0 {
            assert(bytes_seq(*buf).subrange(0, bytes_seq(*buf).len() as int) =~= bytes_seq(*buf));
            return Ok(Vec::new());
        }
        decode_sequence(header, buf, size_of_ioa)
    } else {
        decode_individual(header, buf, size_of_ioa)
    }
}

/// Writes the objects in turn, each with its address for SQ = 0 and without
/// for SQ = 1, stopping at the first write that finds no room.
fn encode_objects(
    objects: &Vec<Indexed<InformationObject>>,
    buf: &mut BytesMut,
    size_of_ioa: u8,
    is_sequence: bool,
) -> (r: Result<(), AduError>)
    requires
        size_of_ioa <= 4,
    ensures
        (r, bytes_mut_seq(*final(buf))) == objects_encode(
            objects@,
            size_of_ioa as nat,
            is_sequence,
            objects@.len() as int,
            bytes_mut_seq(*old(buf)),
        ),
{
    let ghost objs = objects@;
    let ghost n = size_of_ioa as nat;
    let ghost start = bytes_mut_seq(*buf);
    let len = objects.len();
    let mut i: usize = 0;
    while i < len
        invariant
            i <= len,
            len == objs.len(),
            objs == objects@,
            size_of_ioa <= 4,
            n == size_of_ioa as nat,
            start == bytes_mut_seq(*old(buf)),
            objects_encode(objs, n, is_sequence, i as int, start) == (
                Ok::<(), AduError>(()),
                bytes_mut_seq(*buf),
            ),
        decreases len - i,
    {
        if !is_sequence {
            match objects[i].address.encode(buf, size_of_ioa) {
                Ok(()) => {},
                Err(e) => {
                    proof {
                        layout::lemma_objects_encode_err_stays(objs, n, false, i as int + 1, len as int, start);
                    }
                    return Err(e);
                },
            }
        }
        match objects[i].value.encode(buf) {
            Ok(()) => {},
            Err(e) => {
                proof {
                    layout::lemma_objects_encode_err_stays(objs, n, is_sequence, i as int + 1, len as int, start);
                }
                return Err(e);
            },
        }
        i = i + 1;
    }
    Ok(())
}

impl Asdu {
    /// Decode a complete ASDU from the buffer.
    pub fn decode(buf: &mut Bytes, params: &AppLayerParameters) -> (r: Result<Self, AduError>)
        ensures
            asdu_result_view(r) == asdu_decode(bytes_seq(*old(buf)), params@).0,
            bytes_seq(*final(buf)) == bytes_seq(*old(buf)).subrange(
                asdu_decode(bytes_seq(*old(buf)), params@).1,
                bytes_seq(*old(buf)).len() as int,
            ),
    {
        proof {
            use_type_invariant(params);
        }
        let ghost s = bytes_seq(*buf);
        proof {
            header::lemma_header_decode_bounds(s, params@);
        }
        let header = AsduHeader::decode(buf, params)?;
        let ghost t = bytes_seq(*buf);
        let ghost ch = header::header_decode(s, params@).1;
        let size_of_ioa = params.size_of_ioa();
        let objects = decode_objects(&header, buf, size_of_ioa)?;
        proof {
            let c = layout::body_decode(header, t, size_of_ioa as nat).1;
            assert(t.subrange(c, t.len() as int) =~= s.subrange(ch + c, s.len() as int));
        }
        Ok(Asdu { header, objects })
    }

    /// Whether the ASDU can be handed to [`Asdu::encode`].
    pub fn is_encodable(&self) -> (r: bool)
        ensures
            r == asdu_encodable(self@),
    {
        let len = self.objects.len();
        if len > (usize::MAX - 6) / 15 {
            return false;
        }
        if self.header.is_sequence && len > 1 {
            (self.objects[0].address.value() as u64) + (len as u64) <= 0x1_0000_0000
        } else {
            true
        }
    }

    /// Calculate the total encoded size in bytes.
    pub fn encoded_size(&self, params: &AppLayerParameters) -> (r: usize)
        requires
            15 * self.objects.len() + 6 <= usize::MAX,
        ensures
            r == asdu_size(self@, params@),
    {
        proof {
            use_type_invariant(params);
        }
        let header_size = AsduHeader::encoded_size(params);
        let ioa_size = params.size_of_ioa() as usize;
        let len = self.objects.len();
        if len == 0 {
            return header_size;
        }
        let mut data: usize = 0;
        let mut i: usize = 0;
        while i < len
            invariant
                i <= len,
                len == self.objects@.len(),
                15 * len + 6 <= usize::MAX,
                data == joined(payload_chunks(self.objects@), i as int).len(),
                data <= 12 * i,
            decreases len - i,
        {
            proof {
                crate::info::lemma_encode_outcome_appends(self.objects@[i as int].value, Seq::empty());
            }
            data = data + self.objects[i].value.encoded_size();
            i = i + 1;
        }
        if self.header.is_sequence {
            // SQ=1: one IOA + N payloads
            header_size + ioa_size + data
        } else {
            // SQ=0: N * (IOA + payload)
            assert(len * ioa_size <= 3 * len) by (nonlinear_arith)
                requires
                    ioa_size <= 3,
            ;
            header_size + len * ioa_size + data
        }
    }

    /// Encode the ASDU into the buffer.
    #[verifier::loop_isolation(false)]
    pub fn encode(&self, buf: &mut BytesMut, params: &AppLayerParameters) -> (r: Result<(), AduError>)
        requires
            asdu_encodable(self@),
        ensures
            (r, bytes_mut_seq(*final(buf))) == asdu_encode_outcome(self@, params@, bytes_mut_seq(*old(buf))),
    {
        let ghost objs = self.objects@;
        let len = self.objects.len();
        // Validate: all objects must have the same type_id as the header
        let mut i: usize = 0;
        while i < len
            invariant
                i <= len,
                len == objs.len(),
                objs == self.objects@,
                first_where(type_differs(objs, self.header.type_id), i as int) is None,
            decreases len - i,
        {
            let t = self.objects[i].value.type_id();
            if t != self.header.type_id {
                proof {
                    layout::lemma_first_where_stays(
                        type_differs(objs, self.header.type_id),
                        i as int + 1,
                        len as int,
                    );
                }
                return Err(
                    AduError::TypeMismatch { expected: self.header.type_id.as_u8(), got: t.as_u8() },
                );
            }
            i = i + 1;
        }
        // Validate: total encoded size must not exceed max_asdu_length
        let total = self.encoded_size(params);
        if total > params.max_asdu_length() as usize {
            return Err(AduError::ExceedsMaxLength { size: total, max: params.max_asdu_length() });
        }
        // Validate: if SQ=1, IOAs must be consecutive
        if self.header.is_sequence && len > 1 {
            let base = self.objects[0].address.value();
            assert(first_where(breaks_sequence(objs), 0) is None);
            assert(first_where(breaks_sequence(objs), 1) is None);
            let mut i: usize = 1;
            while i < len
                invariant
                    1 <= i <= len,
                    len == objs.len(),
                    objs == self.objects@,
                    base == objs[0].address@,
                    base + len <= 0x1_0000_0000,
                    first_where(breaks_sequence(objs), i as int) is None,
                decreases len - i,
            {
                let expected = base + i as u32;
                let got = self.objects[i].address.value();
                if got != expected {
                    proof {
                        layout::lemma_first_where_stays(breaks_sequence(objs), i as int + 1, len as int);
                    }
                    return Err(AduError::NonSequentialIoa { index: i, expected, got });
                }
                i = i + 1;
            }
        }
        self.header.encode(buf, params)?;
        let size_of_ioa = params.size_of_ioa();
        if self.header.is_sequence {
            // SQ=1: write first IOA, then all payloads without IOAs
            if len > 0 {
                self.objects[0].address.encode(buf, size_of_ioa)?;
                encode_objects(&self.objects, buf, size_of_ioa, true)?;
            }
        } else {
            // SQ=0: write IOA + payload for each object
            encode_objects(&self.objects, buf, size_of_ioa, false)?;
        }
        Ok(())
    }
}

/// Once decoding the SQ = 0 objects has failed, decoding more fails the same way.
proof fn lemma_sq0_err_stays(type_id: crate::types::TypeId, t: Seq<u8>, n: nat, k: int, m: int)
    requires
        1 <= k <= m,
        objects_decode_sq0(type_id, t, n, k).0 is Err,
    ensures
        objects_decode_sq0(type_id, t, n, m) == objects_decode_sq0(type_id, t, n, k),
    decreases m - k,
{
    if m > k {
        lemma_sq0_err_stays(type_id, t, n, k, m - 1);
    }
}

/// Once decoding the SQ = 1 objects has failed, decoding more fails the same way.
proof fn lemma_sq1_err_stays(type_id: crate::types::TypeId, t: Seq<u8>, n: nat, k: int, m: int)
    requires
        1 <= k <= m,
        objects_decode_sq1(type_id, t, n, k).0 is Err,
    ensures
        objects_decode_sq1(type_id, t, n, m) == objects_decode_sq1(type_id, t, n, k),
    decreases m - k,
{
    if m > k {
        lemma_sq1_err_stays(type_id, t, n, k, m - 1);
    }
}

} // verus!
