use bytes::{Bytes, BytesMut};
use vstd::prelude::*;

use crate::error::AduError;
use crate::wire::{bytes_mut_max_len, bytes_mut_seq, bytes_seq};

verus! {

/// What appending `data` to a buffer that holds `old` gives: the result, and
/// what the buffer holds afterwards. The append fails, writing nothing, where
/// the buffer has less room left (`remaining_mut`) than `data` needs.
pub open spec fn put_outcome(old: Seq<u8>, data: Seq<u8>) -> (Result<(), AduError>, Seq<u8>) {
    if data.len() > 0 && bytes_mut_max_len() - old.len() < data.len() {
        (
            Err(AduError::BufferTooShort { need: data.len() as usize, have: (bytes_mut_max_len() - old.len()) as usize }),
            old,
        )
    } else {
        (Ok(()), old + data)
    }
}

/// The outcome of two appends in a row, the second only if the first succeeded.
pub open spec fn put_outcome2(old: Seq<u8>, a: Seq<u8>, b: Seq<u8>) -> (Result<(), AduError>, Seq<u8>) {
    let (r1, s1) = put_outcome(old, a);
    if r1 is Err {
        (r1, s1)
    } else {
        put_outcome(s1, b)
    }
}

/// The error that reading `n` bytes from a buffer holding `s` reports, if it is too short.
pub open spec fn short_error(s: Seq<u8>, n: nat) -> Option<AduError> {
    if s.len() < n {
        Some(AduError::BufferTooShort { need: n as usize, have: s.len() as usize })
    } else {
        None
    }
}

/// Trait for encoding a value into a byte buffer.
pub trait Encode {
    /// The wire bytes of the value.
    spec fn spec_bytes(&self) -> Seq<u8>;

    /// Appends the wire bytes of the value, or fails without writing where the
    /// buffer has no room for them.
    fn encode(&self, buf: &mut BytesMut) -> (r: Result<(), AduError>)
        ensures
            (r, bytes_mut_seq(*final(buf))) == put_outcome(bytes_mut_seq(*old(buf)), self.spec_bytes()),
    ;

    fn encoded_size(&self) -> (n: usize)
        ensures
            n == self.spec_bytes().len(),
    ;
}

/// Trait for decoding a value from a byte buffer.
pub trait Decode: Sized {
    /// The number of wire bytes.
    spec fn spec_size() -> nat;

    /// The value that the first `spec_size()` bytes of `s` encode.
    spec fn spec_parse(s: Seq<u8>) -> Self;

    /// Reads the value from the front of the buffer, or fails without reading
    /// where the buffer is too short.
    fn decode(buf: &mut Bytes) -> (r: Result<Self, AduError>)
        ensures
            match short_error(bytes_seq(*old(buf)), Self::spec_size()) {
                Some(e) => r == Err::<Self, AduError>(e) && bytes_seq(*final(buf)) == bytes_seq(*old(buf)),
                None => r == Ok::<Self, AduError>(Self::spec_parse(bytes_seq(*old(buf))))
                    && bytes_seq(*final(buf)) == bytes_seq(*old(buf)).subrange(
                    Self::spec_size() as int,
                    bytes_seq(*old(buf)).len() as int,
                ),
            },
    ;
}

} // verus!
