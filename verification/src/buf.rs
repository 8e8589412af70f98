//! Trusted interface to `bytes::Bytes`, the reference-counted immutable
//! byte buffer that [`crate::byte_str::ByteStr`] and
//! [`crate::header_value::HeaderValue`] store their payloads in.
//!
//! The buffer is opaque to the verifier; [`bytes_contents`] names what it
//! holds, and each wrapper below states what one library call does to
//! that content.
use vstd::prelude::*;
use vstd::utf8::encode_utf8;
use bytes::Bytes;

verus! {

#[verifier::external_type_specification]
#[verifier::external_body]
pub struct ExBytes(Bytes);

/// The byte contents of a shared buffer.
pub uninterp spec fn bytes_contents(b: Bytes) -> Seq<u8>;

/// Relies on `Clone for bytes::Bytes`: a cheap new handle to the same
/// contents (a reference-count increment, never a data copy).
pub assume_specification[ <Bytes as Clone>::clone ](b: &Bytes) -> (r: Bytes)
    ensures
        bytes_contents(r) == bytes_contents(*b),
;

/// Relies on `bytes::Bytes::new`: a new empty buffer, without allocating.
#[verifier::external_body]
pub(crate) fn bytes_new() -> (r: Bytes)
    ensures
        bytes_contents(r) == Seq::<u8>::empty(),
{
    Bytes::new()
}

/// Relies on `bytes::Bytes::from_static`: points at the static slice
/// without allocating or copying.
#[verifier::external_body]
pub(crate) fn bytes_from_static(src: &'static [u8]) -> (r: Bytes)
    ensures
        bytes_contents(r) == src@,
{
    Bytes::from_static(src)
}

/// Relies on `bytes::Bytes::copy_from_slice`: copies the slice into a
/// fresh buffer.
#[verifier::external_body]
pub(crate) fn bytes_copy_from_slice(src: &[u8]) -> (r: Bytes)
    ensures
        bytes_contents(r) == src@,
{
    Bytes::copy_from_slice(src)
}

/// Relies on `From<Vec<u8>> for bytes::Bytes`: takes over the vector's
/// contents.
#[verifier::external_body]
pub(crate) fn bytes_from_vec(src: Vec<u8>) -> (r: Bytes)
    ensures
        bytes_contents(r) == src@,
{
    Bytes::from(src)
}

/// Relies on `From<String> for bytes::Bytes`: takes over the string's
/// UTF-8 bytes.
#[verifier::external_body]
pub(crate) fn bytes_from_string(src: String) -> (r: Bytes)
    ensures
        bytes_contents(r) == encode_utf8(src@),
{
    Bytes::from(src)
}

/// Relies on `bytes::Bytes::len`.
#[verifier::external_body]
pub(crate) fn bytes_len(b: &Bytes) -> (r: usize)
    ensures
        r == bytes_contents(*b).len(),
{
    b.len()
}

/// Relies on `AsRef<[u8]> for bytes::Bytes`: a borrow of the whole
/// buffer.
#[verifier::external_body]
pub(crate) fn bytes_as_slice(b: &Bytes) -> (r: &[u8])
    ensures
        r@ == bytes_contents(*b),
{
    b.as_ref()
}

} // verus!
