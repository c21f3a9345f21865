use bytes::{Bytes, BytesMut};
use vstd::prelude::*;

use crate::error::{AduError, IoaOverflow};
use crate::info::traits::{put_outcome, short_error};
use crate::wire::{
    bytes_len, bytes_mut_seq, bytes_seq, copy_to_vec, extend_from_slice, le_u32, remaining_mut,
    u32_le_seq,
};

verus! {

/// Maximum value for a 3-byte IOA.
pub const IOA_MAX: u32 = 0xFFFFFF;

/// Address of an information object within an ASDU (1-3 bytes on the wire).
#[derive(Debug, Clone, Copy, PartialEq, Eq, Hash, Structural)]
pub struct InformationObjectAddress(u32);

impl View for InformationObjectAddress {
    type V = u32;

    closed spec fn view(&self) -> u32 {
        self.0
    }
}

/// The first `n` little-endian bytes of `v` (`n` at most 4).
pub open spec fn ioa_bytes(v: u32, n: nat) -> Seq<u8> {
    u32_le_seq(v as int).subrange(0, n as int)
}

/// Byte `i` of `s` where `i < n`, and zero above.
pub open spec fn byte_or_zero(s: Seq<u8>, i: int, n: nat) -> u8 {
    if i < n {
        s[i]
    } else {
        0
    }
}

/// The little-endian value of the first `n` bytes of `s` (`n` at most 4).
pub open spec fn ioa_value(s: Seq<u8>, n: nat) -> u32 {
    le_u32(byte_or_zero(s, 0, n), byte_or_zero(s, 1, n), byte_or_zero(s, 2, n), byte_or_zero(s, 3, n)) as u32
}

/// The values below this bound fit in `n` bytes.
pub open spec fn ioa_capacity(n: nat) -> int {
    if n == 0 {
        1
    } else if n == 1 {
        0x100
    } else if n == 2 {
        0x1_0000
    } else if n == 3 {
        0x100_0000
    } else {
        0x1_0000_0000
    }
}

impl InformationObjectAddress {
    /// The address with the given value.
    pub closed spec fn spec_new(value: u32) -> InformationObjectAddress {
        InformationObjectAddress(value)
    }

    /// The view of an address made from a value is that value, and every
    /// address is made from its view.
    pub proof fn lemma_spec_new(value: u32, a: InformationObjectAddress)
        ensures
            InformationObjectAddress::spec_new(value)@ == value,
            InformationObjectAddress::spec_new(a@) == a,
    {
    }

    /// Two addresses with the same value are the same.
    pub proof fn lemma_view_injective(a: InformationObjectAddress, b: InformationObjectAddress)
        ensures
            a@ == b@ ==> a == b,
    {
    }

    /// Create a new IOA, validating that it fits in 3 bytes (max 0xFFFFFF).
    pub fn try_new(value: u32) -> (r: Result<Self, IoaOverflow>)
        ensures
            value <= IOA_MAX ==> r == Ok::<Self, IoaOverflow>(InformationObjectAddress::spec_new(value)),
            value > IOA_MAX ==> r == Err::<Self, IoaOverflow>(IoaOverflow(value)),
    {
        if value > IOA_MAX {
            return Err(IoaOverflow(value));
        }
        Ok(InformationObjectAddress(value))
    }

    pub fn value(self) -> (r: u32)
        ensures
            r == self@,
    {
        self.0
    }

    /// Encode the IOA in little-endian using `size_of_ioa` bytes (1-3).
    /// More than four bytes is no width of a `u32`, which `requires` leaves out.
    pub fn encode(&self, buf: &mut BytesMut, size_of_ioa: u8) -> (r: Result<(), AduError>)
        requires
            size_of_ioa <= 4,
        ensures
            (r, bytes_mut_seq(*final(buf))) == put_outcome(
                bytes_mut_seq(*old(buf)),
                ioa_bytes(self@, size_of_ioa as nat),
            ),
    {
        let size = size_of_ioa as usize;
        let have = remaining_mut(buf);
        if have < size {
            return Err(AduError::BufferTooShort { need: size, have });
        }
        let v = self.0;
        let all: [u8; 4] = [
            (v % 256) as u8,
            ((v / 256) % 256) as u8,
            ((v / 65536) % 256) as u8,
            (v / 16777216) as u8,
        ];
        let mut out: Vec<u8> = Vec::new();
        let mut i: usize = 0;
        while i < size
            invariant
                i <= size <= 4,
                all@ == u32_le_seq(v as int),
                out@ == all@.subrange(0, i as int),
            decreases size - i,
        {
            out.push(all[i]);
            assert(out@ =~= all@.subrange(0, i + 1));
            i = i + 1;
        }
        extend_from_slice(buf, out.as_slice());
        Ok(())
    }

    /// Decode the IOA from little-endian `size_of_ioa` bytes (1-3).
    /// More than four bytes is no width of a `u32`, which `requires` leaves out.
    pub fn decode(buf: &mut Bytes, size_of_ioa: u8) -> (r: Result<Self, AduError>)
        requires
            size_of_ioa <= 4,
        ensures
            match short_error(bytes_seq(*old(buf)), size_of_ioa as nat) {
                Some(e) => r == Err::<Self, AduError>(e) && bytes_seq(*final(buf)) == bytes_seq(*old(buf)),
                None => r == Ok::<Self, AduError>(
                    InformationObjectAddress::spec_new(ioa_value(bytes_seq(*old(buf)), size_of_ioa as nat)),
                ) && bytes_seq(*final(buf)) == bytes_seq(*old(buf)).subrange(
                    size_of_ioa as int,
                    bytes_seq(*old(buf)).len() as int,
                ),
            },
    {
        let size = size_of_ioa as usize;
        let have = bytes_len(buf);
        if have < size {
            return Err(AduError::BufferTooShort { need: size, have });
        }
        let ghost s = bytes_seq(*buf);
        let b = copy_to_vec(buf, size);
        let b0: u32 = if size >= 1 { b[0] as u32 } else { 0 };
        let b1: u32 = if size >= 2 { b[1] as u32 } else { 0 };
        let b2: u32 = if size >= 3 { b[2] as u32 } else { 0 };
        let b3: u32 = if size >= 4 { b[3] as u32 } else { 0 };
        let value = b0 + 256 * b1 + 65536 * b2 + 16777216 * b3;
        assert(value == ioa_value(s, size as nat));
        Ok(InformationObjectAddress(value))
    }
}

/// An information object address goes on the wire in `n` bytes (1 to 3,
/// IEC 60870-5-101 7.2.5), low byte first.
pub proof fn lemma_ioa_wire_layout(v: u32, n: nat)
    requires
        1 <= n <= 3,
    ensures
        ioa_bytes(v, n).len() == n,
        ioa_bytes(v, n)[0] as int == v % 256,
        n >= 2 ==> ioa_bytes(v, n)[1] as int == (v / 256) % 256,
        n == 3 ==> ioa_bytes(v, n)[2] as int == (v / 65536) % 256,
{
}

/// The bytes of an address that fits in `n` bytes, followed by anything,
/// read back as that address.
pub proof fn lemma_ioa_roundtrip(v: u32, n: nat, rest: Seq<u8>)
    requires
        1 <= n <= 4,
        v < ioa_capacity(n),
    ensures
        ioa_bytes(v, n).len() == n,
        ioa_value(ioa_bytes(v, n) + rest, n) == v,
{
    crate::wire::lemma_u32_le_roundtrip(v as int);
    let s = ioa_bytes(v, n) + rest;
    let full = u32_le_seq(v as int);
    assert(s[0] == full[0]);
    if n >= 2 {
        assert(s[1] == full[1]);
    }
    if n >= 3 {
        assert(s[2] == full[2]);
    }
    if n >= 4 {
        assert(s[3] == full[3]);
    }
}

/// What three or fewer bytes hold fits in them.
pub proof fn lemma_ioa_value_bound(s: Seq<u8>, n: nat)
    requires
        n <= 3,
    ensures
        ioa_value(s, n) < ioa_capacity(n),
        ioa_value(s, n) <= IOA_MAX,
{
}

impl TryFrom<u32> for InformationObjectAddress {
    type Error = IoaOverflow;

    fn try_from(value: u32) -> (r: Result<Self, IoaOverflow>) {
        InformationObjectAddress::try_new(value)
    }
}

impl vstd::std_specs::convert::TryFromSpecImpl<u32> for InformationObjectAddress {
    open spec fn obeys_try_from_spec() -> bool {
        true
    }

    open spec fn try_from_spec(value: u32) -> Result<Self, IoaOverflow> {
        if value > IOA_MAX {
            Err(IoaOverflow(value))
        } else {
            Ok(InformationObjectAddress::spec_new(value))
        }
    }
}

impl From<u16> for InformationObjectAddress {
    fn from(value: u16) -> (r: Self) {
        InformationObjectAddress(value as u32)
    }
}

impl vstd::std_specs::convert::FromSpecImpl<u16> for InformationObjectAddress {
    open spec fn obeys_from_spec() -> bool {
        true
    }

    open spec fn from_spec(value: u16) -> Self {
        InformationObjectAddress::spec_new(value as u32)
    }
}

impl From<u8> for InformationObjectAddress {
    fn from(value: u8) -> (r: Self) {
        InformationObjectAddress(value as u32)
    }
}

impl vstd::std_specs::convert::FromSpecImpl<u8> for InformationObjectAddress {
    open spec fn obeys_from_spec() -> bool {
        true
    }

    open spec fn from_spec(value: u8) -> Self {
        InformationObjectAddress::spec_new(value as u32)
    }
}

/// The decimal digits of `n`, most significant first, without leading zeros.
pub open spec fn decimal(n: nat) -> Seq<char>
    decreases n,
{
    let d = (('0' as int) + n % 10) as char;
    if n < 10 {
        seq![d]
    } else {
        decimal(n / 10).push(d)
    }
}

/// `u32::to_string` (its `Display`): the decimal digits of the value.
#[verifier::external_body]
fn u32_to_decimal(v: u32) -> (r: String)
    ensures
        r@ == decimal(v as nat),
{
    v.to_string()
}

impl InformationObjectAddress {
    /// The address as decimal digits, as its display shows it.
    pub fn to_string(&self) -> (r: String)
        ensures
            r@ == decimal(self@ as nat),
    {
        u32_to_decimal(self.0)
    }
}

} // verus!
