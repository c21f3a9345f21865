//! The wire layout of a whole ASDU: what encoding writes and what decoding
//! reads, stated over byte sequences, with the laws that tie them together.
use vstd::prelude::*;

use crate::error::{AduError, IoaOverflow};
use crate::info::traits::{put_outcome, short_error};
use crate::info::InformationObject;
use crate::types::app_layer_params::{app_values_valid, header_size, AppLayerValues};
use crate::types::TypeId;

use super::header::{header_bytes, header_canonical, header_decode, header_encode_outcome, AsduHeader};
use super::ioa::{ioa_bytes, ioa_capacity, ioa_value, InformationObjectAddress, IOA_MAX};
use super::{AsduView, Indexed};

verus! {

// ---------------------------------------------------------------------------
// First index at which a property holds
// ---------------------------------------------------------------------------
/// The first index below `k` at which `p` holds, if there is one.
pub open spec fn first_where(p: spec_fn(int) -> bool, k: int) -> Option<int>
    decreases k,
{
    if k <= 0 {
        None
    } else {
        match first_where(p, k - 1) {
            Some(j) => Some(j),
            None => if p(k - 1) {
                Some(k - 1)
            } else {
                None
            },
        }
    }
}

/// Once found, the first index stays the same on longer ranges.
pub proof fn lemma_first_where_stays(p: spec_fn(int) -> bool, k: int, m: int)
    requires
        0 <= k <= m,
        first_where(p, k) is Some,
    ensures
        first_where(p, m) == first_where(p, k),
    decreases m - k,
{
    if m > k {
        lemma_first_where_stays(p, k, m - 1);
    }
}

/// There is no first index exactly where `p` holds nowhere below `k`.
pub proof fn lemma_first_where_none(p: spec_fn(int) -> bool, k: int)
    requires
        0 <= k,
    ensures
        first_where(p, k) is None <==> forall|j: int| 0 <= j < k ==> !#[trigger] p(j),
    decreases k,
{
    if k > 0 {
        lemma_first_where_none(p, k - 1);
    }
}

// ---------------------------------------------------------------------------
// Concatenated chunks
// ---------------------------------------------------------------------------
/// The chunks `f(0)`, ..., `f(k - 1)` one after the other.
pub open spec fn joined(f: spec_fn(int) -> Seq<u8>, k: int) -> Seq<u8>
    decreases k,
{
    if k <= 0 {
        Seq::empty()
    } else {
        joined(f, k - 1) + f(k - 1)
    }
}

/// The concatenation of fewer chunks starts the concatenation of more.
pub proof fn lemma_joined_prefix(f: spec_fn(int) -> Seq<u8>, k: int, m: int)
    requires
        0 <= k <= m,
    ensures
        joined(f, k).len() <= joined(f, m).len(),
        joined(f, m).subrange(0, joined(f, k).len() as int) == joined(f, k),
    decreases m - k,
{
    if k < m {
        lemma_joined_prefix(f, k, m - 1);
        let a = joined(f, m - 1);
        assert((a + f(m - 1)).subrange(0, joined(f, k).len() as int) =~= a.subrange(
            0,
            joined(f, k).len() as int,
        ));
    } else {
        assert(joined(f, m).subrange(0, joined(f, m).len() as int) =~= joined(f, m));
    }
}

/// What follows the first `k` chunks, in a sequence that starts with all
/// `m` of them, is chunk `k` and then what follows the first `k + 1`.
pub proof fn lemma_joined_step(f: spec_fn(int) -> Seq<u8>, k: int, m: int, s: Seq<u8>)
    requires
        0 <= k < m,
        s.subrange(0, joined(f, m).len() as int) == joined(f, m),
        joined(f, m).len() <= s.len(),
    ensures
        s.subrange(joined(f, k).len() as int, s.len() as int) =~= f(k) + s.subrange(
            joined(f, k + 1).len() as int,
            s.len() as int,
        ),
{
    lemma_joined_prefix(f, k + 1, m);
    let c = joined(f, k).len() as int;
    let c1 = joined(f, k + 1).len() as int;
    assert(s.subrange(0, c1) =~= joined(f, m).subrange(0, c1));
    assert(joined(f, k + 1) == joined(f, k) + f(k));
    assert forall|j: int| 0 <= j < f(k).len() implies s[c + j] == #[trigger] f(k)[j] by {
        assert(s.subrange(0, c1)[c + j] == s[c + j]);
    }
}

// ---------------------------------------------------------------------------
// Bytes of the objects
// ---------------------------------------------------------------------------
/// An object with its own address, as SQ = 0 writes it.
pub open spec fn addressed_bytes(o: Indexed<InformationObject>, n: nat) -> Seq<u8> {
    ioa_bytes(o.address@, n) + o.value.spec_bytes()
}

/// The chunks of SQ = 0: address and payload of each object.
pub open spec fn addressed_chunks(objs: Seq<Indexed<InformationObject>>, n: nat) -> spec_fn(int) -> Seq<u8> {
    |i: int| addressed_bytes(objs[i], n)
}

/// The chunks of SQ = 1: the payload of each object.
pub open spec fn payload_chunks(objs: Seq<Indexed<InformationObject>>) -> spec_fn(int) -> Seq<u8> {
    |i: int| objs[i].value.spec_bytes()
}

/// The bytes after the header: for SQ = 1 the first address and then the
/// payloads, for SQ = 0 each address with its payload.
pub open spec fn body_bytes(objs: Seq<Indexed<InformationObject>>, is_sequence: bool, n: nat) -> Seq<u8> {
    if is_sequence {
        if objs.len() == 0 {
            Seq::empty()
        } else {
            ioa_bytes(objs[0].address@, n) + joined(payload_chunks(objs), objs.len() as int)
        }
    } else {
        joined(addressed_chunks(objs, n), objs.len() as int)
    }
}

/// The wire bytes of an ASDU.
pub open spec fn asdu_bytes(a: AsduView, v: AppLayerValues) -> Seq<u8> {
    header_bytes(a.header, v) + body_bytes(a.objects, a.header.is_sequence, v.size_of_ioa as nat)
}

/// The size that encoding reports and checks: the header, one address per
/// object (one in all for SQ = 1), and the payloads.
pub open spec fn asdu_size(a: AsduView, v: AppLayerValues) -> int {
    let n = v.size_of_ioa as int;
    let len = a.objects.len() as int;
    let data = joined(payload_chunks(a.objects), len).len() as int;
    if len == 0 {
        header_size(v)
    } else if a.header.is_sequence {
        header_size(v) + n + data
    } else {
        header_size(v) + len * n + data
    }
}

// ---------------------------------------------------------------------------
// Encoding
// ---------------------------------------------------------------------------
/// Whether object `i` has another type than `type_id`.
pub open spec fn type_differs(objs: Seq<Indexed<InformationObject>>, type_id: TypeId) -> spec_fn(int) -> bool {
    |i: int| objs[i].value.spec_type_id() != type_id
}

/// The first object whose type differs from the header's, as an error.
pub open spec fn type_error(objs: Seq<Indexed<InformationObject>>, type_id: TypeId) -> Option<AduError> {
    match first_where(type_differs(objs, type_id), objs.len() as int) {
        Some(j) => Some(
            AduError::TypeMismatch { expected: type_id.code(), got: objs[j].value.spec_type_id().code() },
        ),
        None => None,
    }
}

/// Whether object `i` breaks the run of addresses that SQ = 1 asks for.
pub open spec fn breaks_sequence(objs: Seq<Indexed<InformationObject>>) -> spec_fn(int) -> bool {
    |i: int| i >= 1 && objs[i].address@ != objs[0].address@ + i
}

/// For SQ = 1, the first object whose address does not follow from the
/// first address, as an error.
pub open spec fn sequence_error(objs: Seq<Indexed<InformationObject>>, is_sequence: bool) -> Option<AduError> {
    if is_sequence && objs.len() > 1 {
        match first_where(breaks_sequence(objs), objs.len() as int) {
            Some(j) => Some(
                AduError::NonSequentialIoa {
                    index: j as usize,
                    expected: (objs[0].address@ + j) as u32,
                    got: objs[j].address@,
                },
            ),
            None => None,
        }
    } else {
        None
    }
}

/// Encoding one object: its address first for SQ = 0, then its payload.
pub open spec fn object_encode_step(
    o: Indexed<InformationObject>,
    n: nat,
    is_sequence: bool,
    s: Seq<u8>,
) -> (Result<(), AduError>, Seq<u8>) {
    if is_sequence {
        o.value.spec_encode_outcome(s)
    } else {
        let (r1, s1) = put_outcome(s, ioa_bytes(o.address@, n));
        if r1 is Err {
            (r1, s1)
        } else {
            o.value.spec_encode_outcome(s1)
        }
    }
}

/// Encoding the first `k` objects in turn, stopping at the first error.
pub open spec fn objects_encode(
    objs: Seq<Indexed<InformationObject>>,
    n: nat,
    is_sequence: bool,
    k: int,
    old: Seq<u8>,
) -> (Result<(), AduError>, Seq<u8>)
    decreases k,
{
    if k <= 0 {
        (Ok(()), old)
    } else {
        let (r, s) = objects_encode(objs, n, is_sequence, k - 1, old);
        if r is Err {
            (r, s)
        } else {
            object_encode_step(objs[k - 1], n, is_sequence, s)
        }
    }
}

/// What encoding an ASDU into a buffer holding `old` gives. The object types,
/// the size and the run of addresses are checked before anything is written;
/// then the header and the objects are written in turn, and a write that
/// finds no room stops there.
pub open spec fn asdu_encode_outcome(a: AsduView, v: AppLayerValues, old: Seq<u8>) -> (
    Result<(), AduError>,
    Seq<u8>,
) {
    let objs = a.objects;
    let h = a.header;
    let n = v.size_of_ioa as nat;
    match type_error(objs, h.type_id) {
        Some(e) => (Err(e), old),
        None => if asdu_size(a, v) > v.max_asdu_length {
            (
                Err(AduError::ExceedsMaxLength { size: asdu_size(a, v) as usize, max: v.max_asdu_length }),
                old,
            )
        } else {
            match sequence_error(objs, h.is_sequence) {
                Some(e) => (Err(e), old),
                None => {
                    let (rh, sh) = header_encode_outcome(h, v, old);
                    if rh is Err {
                        (rh, sh)
                    } else if h.is_sequence {
                        if objs.len() == 0 {
                            (Ok(()), sh)
                        } else {
                            let (ri, si) = put_outcome(sh, ioa_bytes(objs[0].address@, n));
                            if ri is Err {
                                (ri, si)
                            } else {
                                objects_encode(objs, n, true, objs.len() as int, si)
                            }
                        }
                    } else {
                        objects_encode(objs, n, false, objs.len() as int, sh)
                    }
                },
            }
        },
    }
}

// ---------------------------------------------------------------------------
// Decoding
// ---------------------------------------------------------------------------
/// Decoding the payload of one object from the front of `t` and pairing it
/// with its address.
pub open spec fn object_decode_at(type_id: TypeId, t: Seq<u8>, address: InformationObjectAddress) -> (
    Result<Indexed<InformationObject>, AduError>,
    int,
) {
    let (r, c) = InformationObject::spec_decode(type_id, t);
    (
        match r {
            Ok(o) => Ok(Indexed { address, value: o }),
            Err(e) => Err(e),
        },
        c,
    )
}

/// Decoding `k` objects of SQ = 0 from the front of `s`, each with its own
/// address: the objects, or the first error, and the bytes taken.
pub open spec fn objects_decode_sq0(type_id: TypeId, s: Seq<u8>, n: nat, k: int) -> (
    Result<Seq<Indexed<InformationObject>>, AduError>,
    int,
)
    decreases k,
{
    if k <= 0 {
        (Ok(Seq::empty()), 0)
    } else {
        let (r, c) = objects_decode_sq0(type_id, s, n, k - 1);
        match r {
            Err(e) => (Err(e), c),
            Ok(objs) => {
                let t = s.subrange(c, s.len() as int);
                match short_error(t, n) {
                    Some(e) => (Err(e), c),
                    None => {
                        let (ro, co) = object_decode_at(
                            type_id,
                            t.subrange(n as int, t.len() as int),
                            InformationObjectAddress::spec_new(ioa_value(t, n)),
                        );
                        (
                            match ro {
                                Ok(x) => Ok(objs.push(x)),
                                Err(e) => Err(e),
                            },
                            c + n + co,
                        )
                    },
                }
            },
        }
    }
}

/// Decoding `k >= 1` objects of SQ = 1 from the front of `s`: one address,
/// then payloads whose addresses count up from it.
pub open spec fn objects_decode_sq1(type_id: TypeId, s: Seq<u8>, n: nat, k: int) -> (
    Result<Seq<Indexed<InformationObject>>, AduError>,
    int,
)
    decreases k,
{
    if k <= 1 {
        match short_error(s, n) {
            Some(e) => (Err(e), 0),
            None => {
                let (ro, co) = object_decode_at(
                    type_id,
                    s.subrange(n as int, s.len() as int),
                    InformationObjectAddress::spec_new(ioa_value(s, n)),
                );
                (
                    match ro {
                        Ok(x) => Ok(seq![x]),
                        Err(e) => Err(e),
                    },
                    n + co,
                )
            },
        }
    } else {
        let (r, c) = objects_decode_sq1(type_id, s, n, k - 1);
        match r {
            Err(e) => (Err(e), c),
            Ok(objs) => {
                let address = objs[0].address@ + (k - 1);
                if address > IOA_MAX {
                    (Err(AduError::IoaOverflow(IoaOverflow(address as u32))), c)
                } else {
                    let (ro, co) = object_decode_at(
                        type_id,
                        s.subrange(c, s.len() as int),
                        InformationObjectAddress::spec_new(address as u32),
                    );
                    (
                        match ro {
                            Ok(x) => Ok(objs.push(x)),
                            Err(e) => Err(e),
                        },
                        c + co,
                    )
                }
            },
        }
    }
}

/// Decoding the objects that header `h` announces from the front of `t`.
pub open spec fn body_decode(h: AsduHeader, t: Seq<u8>, n: nat) -> (
    Result<Seq<Indexed<InformationObject>>, AduError>,
    int,
) {
    let k = h.num_objects as int;
    if h.is_sequence {
        if k == 0 {
            (Ok(Seq::empty()), 0)
        } else {
            objects_decode_sq1(h.type_id, t, n, k)
        }
    } else {
        objects_decode_sq0(h.type_id, t, n, k)
    }
}

/// What decoding an ASDU from the front of `s` gives, and how many bytes it takes.
pub open spec fn asdu_decode(s: Seq<u8>, v: AppLayerValues) -> (Result<AsduView, AduError>, int) {
    let (rh, ch) = header_decode(s, v);
    match rh {
        Err(e) => (Err(e), ch),
        Ok(h) => {
            let (r, c) = body_decode(h, s.subrange(ch, s.len() as int), v.size_of_ioa as nat);
            (
                match r {
                    Ok(objs) => Ok(AsduView { header: h, objects: objs }),
                    Err(e) => Err(e),
                },
                ch + c,
            )
        },
    }
}

// ---------------------------------------------------------------------------
// Laws
// ---------------------------------------------------------------------------
/// An ASDU that its encoding carries in full: a header that fits, as many
/// objects as the header counts, each of the header's type, with a payload
/// that fits and an address that fits in the address bytes, and for SQ = 1
/// addresses that count up from the first.
pub open spec fn asdu_canonical(a: AsduView, v: AppLayerValues) -> bool {
    let objs = a.objects;
    &&& header_canonical(a.header, v)
    &&& a.header.num_objects == objs.len()
    &&& forall|i: int|
        0 <= i < objs.len() ==> {
            &&& (#[trigger] objs[i]).value.spec_type_id() == a.header.type_id
            &&& objs[i].value.spec_canonical()
            &&& objs[i].address@ < ioa_capacity(v.size_of_ioa as nat)
            &&& a.header.is_sequence ==> objs[i].address@ == objs[0].address@ + i
        }
}

/// Encoding the first `k` objects, where it succeeds, appends exactly their bytes.
pub proof fn lemma_objects_encode_appends(
    objs: Seq<Indexed<InformationObject>>,
    n: nat,
    is_sequence: bool,
    k: int,
    old: Seq<u8>,
)
    requires
        0 <= k,
    ensures
        objects_encode(objs, n, is_sequence, k, old).0 is Ok ==> objects_encode(
            objs,
            n,
            is_sequence,
            k,
            old,
        ).1 == old + (if is_sequence {
            joined(payload_chunks(objs), k)
        } else {
            joined(addressed_chunks(objs, n), k)
        }),
    decreases k,
{
    if k > 0 {
        lemma_objects_encode_appends(objs, n, is_sequence, k - 1, old);
        let (r, s) = objects_encode(objs, n, is_sequence, k - 1, old);
        let o = objs[k - 1];
        if r is Ok {
            if is_sequence {
                crate::info::lemma_encode_outcome_appends(o.value, s);
                assert(old + joined(payload_chunks(objs), k - 1) + o.value.spec_bytes() =~= old + joined(
                    payload_chunks(objs),
                    k,
                ));
            } else {
                let (r1, s1) = put_outcome(s, ioa_bytes(o.address@, n));
                crate::info::lemma_encode_outcome_appends(o.value, s1);
                assert(old + joined(addressed_chunks(objs, n), k - 1) + ioa_bytes(o.address@, n)
                    + o.value.spec_bytes() =~= old + joined(addressed_chunks(objs, n), k));
            }
        }
    }
}

/// Once encoding the objects has failed, encoding more of them fails the same way.
pub proof fn lemma_objects_encode_err_stays(
    objs: Seq<Indexed<InformationObject>>,
    n: nat,
    is_sequence: bool,
    k: int,
    m: int,
    old: Seq<u8>,
)
    requires
        0 <= k <= m,
        objects_encode(objs, n, is_sequence, k, old).0 is Err,
    ensures
        objects_encode(objs, n, is_sequence, m, old) == objects_encode(objs, n, is_sequence, k, old),
    decreases m - k,
{
    if m > k {
        lemma_objects_encode_err_stays(objs, n, is_sequence, k, m - 1, old);
    }
}

/// Encoding an ASDU, where it succeeds, appends exactly its wire bytes.
pub proof fn lemma_asdu_encode_appends(a: AsduView, v: AppLayerValues, old: Seq<u8>)
    ensures
        asdu_encode_outcome(a, v, old).0 is Ok ==> asdu_encode_outcome(a, v, old).1 == old + asdu_bytes(
            a,
            v,
        ),
{
    let objs = a.objects;
    let h = a.header;
    let n = v.size_of_ioa as nat;
    let (rh, sh) = header_encode_outcome(h, v, old);
    if rh is Ok {
        if h.is_sequence {
            if objs.len() == 0 {
                assert(old + header_bytes(h, v) =~= old + asdu_bytes(a, v));
            } else {
                let (ri, si) = put_outcome(sh, ioa_bytes(objs[0].address@, n));
                lemma_objects_encode_appends(objs, n, true, objs.len() as int, si);
                assert(old + header_bytes(h, v) + ioa_bytes(objs[0].address@, n) + joined(
                    payload_chunks(objs),
                    objs.len() as int,
                ) =~= old + asdu_bytes(a, v));
            }
        } else {
            lemma_objects_encode_appends(objs, n, false, objs.len() as int, sh);
            assert(old + header_bytes(h, v) + joined(addressed_chunks(objs, n), objs.len() as int)
                =~= old + asdu_bytes(a, v));
        }
    }
}

/// The bytes of the SQ = 0 objects, followed by anything, decode back to the
/// first `k` objects and take exactly their bytes.
proof fn lemma_decode_sq0(
    type_id: TypeId,
    objs: Seq<Indexed<InformationObject>>,
    n: nat,
    rest: Seq<u8>,
    k: int,
)
    requires
        1 <= n <= 3,
        0 <= k <= objs.len(),
        forall|i: int|
            0 <= i < objs.len() ==> {
                &&& (#[trigger] objs[i]).value.spec_type_id() == type_id
                &&& objs[i].value.spec_canonical()
                &&& objs[i].address@ < ioa_capacity(n)
            },
    ensures
        objects_decode_sq0(type_id, joined(addressed_chunks(objs, n), objs.len() as int) + rest, n, k) == (
            Ok::<Seq<Indexed<InformationObject>>, AduError>(objs.take(k)),
            joined(addressed_chunks(objs, n), k).len() as int,
        ),
    decreases k,
{
    let f = addressed_chunks(objs, n);
    let m = objs.len() as int;
    let s = joined(f, m) + rest;
    if k == 0 {
        assert(objs.take(0) =~= Seq::<Indexed<InformationObject>>::empty());
    } else {
        lemma_decode_sq0(type_id, objs, n, rest, k - 1);
        assert(s.subrange(0, joined(f, m).len() as int) =~= joined(f, m));
        lemma_joined_step(f, k - 1, m, s);
        let o = objs[k - 1];
        let t = s.subrange(joined(f, k - 1).len() as int, s.len() as int);
        let after = s.subrange(joined(f, k).len() as int, s.len() as int);
        assert(f(k - 1) == addressed_bytes(o, n));
        assert(t =~= ioa_bytes(o.address@, n) + (o.value.spec_bytes() + after));
        super::ioa::lemma_ioa_roundtrip(o.address@, n, o.value.spec_bytes() + after);
        assert(t.subrange(n as int, t.len() as int) =~= o.value.spec_bytes() + after);
        crate::info::lemma_information_object_roundtrip(o.value, after);
        InformationObjectAddress::lemma_spec_new(o.address@, o.address);
        assert(objs.take(k - 1).push(o) =~= objs.take(k));
    }
}

/// Dropping a prefix and then `x` bytes is dropping `x` bytes of the rest.
proof fn lemma_shift(a: Seq<u8>, p: Seq<u8>, x: int)
    requires
        0 <= x <= p.len(),
    ensures
        (a + p).subrange(a.len() + x, (a + p).len() as int) =~= p.subrange(x, p.len() as int),
{
}

/// The bytes of the SQ = 1 objects after their first address, followed by
/// anything, decode back to the first `k >= 1` objects.
proof fn lemma_decode_sq1(
    type_id: TypeId,
    objs: Seq<Indexed<InformationObject>>,
    n: nat,
    rest: Seq<u8>,
    k: int,
)
    requires
        1 <= n <= 3,
        1 <= k <= objs.len(),
        forall|i: int|
            0 <= i < objs.len() ==> {
                &&& (#[trigger] objs[i]).value.spec_type_id() == type_id
                &&& objs[i].value.spec_canonical()
                &&& objs[i].address@ < ioa_capacity(n)
                &&& objs[i].address@ == objs[0].address@ + i
            },
    ensures
        objects_decode_sq1(
            type_id,
            ioa_bytes(objs[0].address@, n) + (joined(payload_chunks(objs), objs.len() as int) + rest),
            n,
            k,
        ) == (
            Ok::<Seq<Indexed<InformationObject>>, AduError>(objs.take(k)),
            (n + joined(payload_chunks(objs), k).len()) as int,
        ),
    decreases k,
{
    let f = payload_chunks(objs);
    let m = objs.len() as int;
    let p = joined(f, m) + rest;
    let a0 = ioa_bytes(objs[0].address@, n);
    let s = a0 + p;
    super::ioa::lemma_ioa_roundtrip(objs[0].address@, n, p);
    assert(p.subrange(0, joined(f, m).len() as int) =~= joined(f, m));
    lemma_joined_prefix(f, k - 1, m);
    lemma_joined_step(f, k - 1, m, p);
    let o = objs[k - 1];
    let after = p.subrange(joined(f, k).len() as int, p.len() as int);
    crate::info::lemma_information_object_roundtrip(o.value, after);
    InformationObjectAddress::lemma_spec_new(o.address@, o.address);
    lemma_shift(a0, p, joined(f, k - 1).len() as int);
    if k == 1 {
        assert(seq![o] =~= objs.take(1));
    } else {
        lemma_decode_sq1(type_id, objs, n, rest, k - 1);
        assert(objs.take(k - 1)[0] == objs[0]);
        assert(objs.take(k - 1).push(o) =~= objs.take(k));
    }
}

/// The bytes after the header of a canonical ASDU, followed by anything,
/// decode back to its objects and take exactly their bytes.
proof fn lemma_body_roundtrip(a: AsduView, v: AppLayerValues, rest: Seq<u8>)
    requires
        app_values_valid(v),
        asdu_canonical(a, v),
    ensures
        body_decode(
            a.header,
            body_bytes(a.objects, a.header.is_sequence, v.size_of_ioa as nat) + rest,
            v.size_of_ioa as nat,
        ) == (
            Ok::<Seq<Indexed<InformationObject>>, AduError>(a.objects),
            body_bytes(a.objects, a.header.is_sequence, v.size_of_ioa as nat).len() as int,
        ),
{
    let h = a.header;
    let objs = a.objects;
    let n = v.size_of_ioa as nat;
    if h.is_sequence {
        if objs.len() == 0 {
            assert(objs =~= Seq::<Indexed<InformationObject>>::empty());
        } else {
            lemma_decode_sq1(h.type_id, objs, n, rest, objs.len() as int);
            assert(body_bytes(objs, true, n) + rest =~= ioa_bytes(objs[0].address@, n) + (joined(
                payload_chunks(objs),
                objs.len() as int,
            ) + rest));
            super::ioa::lemma_ioa_roundtrip(objs[0].address@, n, Seq::empty());
        }
    } else {
        lemma_decode_sq0(h.type_id, objs, n, rest, objs.len() as int);
    }
    assert(objs.take(objs.len() as int) =~= objs);
}

/// Decoding the wire bytes of an ASDU that its encoding carries in full,
/// followed by anything, gives the ASDU back and takes exactly its bytes.
pub proof fn lemma_asdu_roundtrip(a: AsduView, v: AppLayerValues, rest: Seq<u8>)
    requires
        app_values_valid(v),
        asdu_canonical(a, v),
    ensures
        asdu_decode(asdu_bytes(a, v) + rest, v) == (
            Ok::<AsduView, AduError>(a),
            asdu_bytes(a, v).len() as int,
        ),
{
    let h = a.header;
    let n = v.size_of_ioa as nat;
    let body = body_bytes(a.objects, h.is_sequence, n);
    let s = asdu_bytes(a, v) + rest;
    super::header::lemma_header_roundtrip(h, v, body + rest);
    assert(s =~= header_bytes(h, v) + (body + rest));
    assert(s.subrange(header_size(v), s.len() as int) =~= body + rest);
    lemma_body_roundtrip(a, v, rest);
}

/// The address bytes of SQ = 0 take `n` bytes per object.
proof fn lemma_addressed_len(objs: Seq<Indexed<InformationObject>>, n: nat, k: int)
    requires
        0 <= k,
        n <= 4,
    ensures
        joined(addressed_chunks(objs, n), k).len() == k * n + joined(payload_chunks(objs), k).len(),
    decreases k,
{
    if k > 0 {
        lemma_addressed_len(objs, n, k - 1);
        assert(ioa_bytes(objs[k - 1].address@, n).len() == n);
        assert(k * n == (k - 1) * n + n) by (nonlinear_arith);
    }
}

/// The wire bytes of an ASDU are as many as the size that encoding reports.
pub proof fn lemma_asdu_size(a: AsduView, v: AppLayerValues)
    requires
        app_values_valid(v),
    ensures
        asdu_bytes(a, v).len() == asdu_size(a, v),
{
    let n = v.size_of_ioa as nat;
    let objs = a.objects;
    assert(header_bytes(a.header, v).len() == header_size(v));
    if a.header.is_sequence {
        if objs.len() > 0 {
            assert(ioa_bytes(objs[0].address@, n).len() == n);
        }
    } else {
        lemma_addressed_len(objs, n, objs.len() as int);
    }
}

/// Encoding the objects into a buffer with room for all of them succeeds
/// and appends their bytes.
proof fn lemma_objects_encode_ok(
    objs: Seq<Indexed<InformationObject>>,
    n: nat,
    is_sequence: bool,
    k: int,
    old: Seq<u8>,
)
    requires
        0 <= k,
        old.len() + (if is_sequence {
            joined(payload_chunks(objs), k)
        } else {
            joined(addressed_chunks(objs, n), k)
        }).len() <= crate::wire::bytes_mut_max_len(),
    ensures
        objects_encode(objs, n, is_sequence, k, old) == (Ok::<(), AduError>(()), old + (if is_sequence {
            joined(payload_chunks(objs), k)
        } else {
            joined(addressed_chunks(objs, n), k)
        })),
    decreases k,
{
    if k > 0 {
        lemma_objects_encode_ok(objs, n, is_sequence, k - 1, old);
        let o = objs[k - 1];
        if is_sequence {
            let s = old + joined(payload_chunks(objs), k - 1);
            crate::info::lemma_encode_outcome_ok(o.value, s);
            assert(s + o.value.spec_bytes() =~= old + joined(payload_chunks(objs), k));
        } else {
            let s = old + joined(addressed_chunks(objs, n), k - 1);
            let s1 = s + ioa_bytes(o.address@, n);
            crate::info::lemma_encode_outcome_ok(o.value, s1);
            assert(s1 + o.value.spec_bytes() =~= old + joined(addressed_chunks(objs, n), k));
        }
    } else {
        assert(old + Seq::<u8>::empty() =~= old);
    }
}

/// Encoding an ASDU that its encoding carries in full, whose size is within
/// the maximum, into a buffer with room for it, succeeds and appends its bytes.
pub proof fn lemma_asdu_encode_succeeds(a: AsduView, v: AppLayerValues, old: Seq<u8>)
    requires
        app_values_valid(v),
        asdu_canonical(a, v),
        asdu_size(a, v) <= v.max_asdu_length,
        old.len() + asdu_size(a, v) <= crate::wire::bytes_mut_max_len(),
    ensures
        asdu_encode_outcome(a, v, old) == (Ok::<(), AduError>(()), old + asdu_bytes(a, v)),
{
    let objs = a.objects;
    let h = a.header;
    let n = v.size_of_ioa as nat;
    lemma_asdu_size(a, v);
    lemma_first_where_none(type_differs(objs, h.type_id), objs.len() as int);
    assert forall|j: int| 0 <= j < objs.len() implies !#[trigger] type_differs(objs, h.type_id)(j) by {
        assert(objs[j].value.spec_type_id() == h.type_id);
    }
    if h.is_sequence && objs.len() > 1 {
        lemma_first_where_none(breaks_sequence(objs), objs.len() as int);
        assert forall|j: int| 0 <= j < objs.len() implies !#[trigger] breaks_sequence(objs)(j) by {
            assert(objs[j].address@ == objs[0].address@ + j);
        }
    }
    let sh = old + header_bytes(h, v);
    if h.is_sequence {
        if objs.len() > 0 {
            let si = sh + ioa_bytes(objs[0].address@, n);
            lemma_objects_encode_ok(objs, n, true, objs.len() as int, si);
            assert(si + joined(payload_chunks(objs), objs.len() as int) =~= old + asdu_bytes(a, v));
        } else {
            assert(sh =~= old + asdu_bytes(a, v));
        }
    } else {
        lemma_objects_encode_ok(objs, n, false, objs.len() as int, sh);
        assert(sh + joined(addressed_chunks(objs, n), objs.len() as int) =~= old + asdu_bytes(a, v));
    }
}

/// An ASDU that its encoding carries in full, once encoded, decodes back to
/// itself from the bytes that encoding appended.
pub proof fn lemma_asdu_encode_decode(a: AsduView, v: AppLayerValues, old: Seq<u8>, rest: Seq<u8>)
    requires
        app_values_valid(v),
        asdu_canonical(a, v),
        asdu_encode_outcome(a, v, old).0 is Ok,
    ensures
        asdu_encode_outcome(a, v, old).1 == old + asdu_bytes(a, v),
        asdu_decode(
            asdu_encode_outcome(a, v, old).1.subrange(old.len() as int, asdu_encode_outcome(a, v, old).1.len() as int)
                + rest,
            v,
        ) == (Ok::<AsduView, AduError>(a), asdu_size(a, v)),
{
    lemma_asdu_encode_appends(a, v, old);
    lemma_asdu_size(a, v);
    lemma_asdu_roundtrip(a, v, rest);
    let s = asdu_encode_outcome(a, v, old).1;
    assert(s.subrange(old.len() as int, s.len() as int) =~= asdu_bytes(a, v));
}

} // verus!
