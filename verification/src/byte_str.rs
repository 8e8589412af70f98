//! A shared immutable byte buffer that is guaranteed, by construction,
//! to contain valid UTF-8 text, so that string access never re-validates.
use vstd::prelude::*;
use vstd::utf8::valid_utf8;
use vstd::utf8::encode_utf8;
use vstd::utf8::encode_utf8_valid_utf8;
use vstd::slice::slice_to_vec;
use bytes::Bytes;
use crate::buf::bytes_contents;
use crate::buf::bytes_new;
use crate::buf::bytes_from_static;
use crate::buf::bytes_from_string;
use crate::buf::bytes_copy_from_slice;
use crate::buf::bytes_len;
use crate::buf::bytes_as_slice;
use crate::text::bytes_eq;
use crate::text::utf8_check;
use crate::text::string_from_utf8;

verus! {

/// An immutable, cheaply shareable byte buffer whose contents are valid
/// UTF-8 at all times.
#[derive(Debug, Hash)]
pub struct ByteStr {
    // Invariant (`wf`): bytes contains valid UTF-8
    bytes: Bytes,
}

/// A possible error when converting a `ByteStr` from bytes: the buffer
/// held invalid UTF-8.
#[derive(Clone, Debug, PartialEq, Eq, Structural)]
pub struct InvalidUtf8;

impl View for ByteStr {
    type V = Seq<u8>;

    /// The bytes of the string.
    closed spec fn view(&self) -> Seq<u8> {
        bytes_contents(self.bytes)
    }
}

impl ByteStr {
    /// Well-formed: the contents are valid UTF-8.
    pub open spec fn wf(&self) -> bool {
        valid_utf8(self@)
    }

    /// The empty byte string.
    pub fn new() -> (r: ByteStr)
        ensures
            r@ == Seq::<u8>::empty() && r.wf(),
    {
        // Invariant: the empty buffer is trivially valid UTF-8.
        ByteStr { bytes: bytes_new() }
    }

    /// Builds from a compile-time text literal; validity is guaranteed by
    /// construction from already-verified text, without copying.
    pub fn from_static(val: &'static str) -> (r: ByteStr)
        ensures
            r@ == encode_utf8(val@) && r.wf(),
    {
        proof {
            encode_utf8_valid_utf8(val@);
        }
        // Invariant: val is a str, so its bytes are valid UTF-8.
        ByteStr { bytes: bytes_from_static(val.as_bytes()) }
    }

    /// A borrow of the underlying shared buffer.
    pub fn as_bytes(&self) -> (r: &Bytes)
        ensures
            bytes_contents(*r) == self@,
    {
        &self.bytes
    }

    /// True when the string holds no bytes.
    pub fn is_empty(&self) -> (r: bool)
        ensures
            r == (self@.len() == 0),
    {
        self.len() == 0
    }

    /// The length in bytes.
    pub fn len(&self) -> (r: usize)
        ensures
            r == self@.len(),
    {
        bytes_len(&self.bytes)
    }

    /// Wraps a buffer whose contents the caller has already proved to be
    /// valid UTF-8; no scan is performed.
    pub fn from_utf8_unchecked(bytes: Bytes) -> (r: ByteStr)
        requires
            valid_utf8(bytes_contents(bytes)),
        ensures
            r@ == bytes_contents(bytes) && r.wf(),
    {
        ByteStr { bytes }
    }

    /// Scans the buffer once and wraps it without copying, failing on
    /// invalid UTF-8.
    pub fn from_utf8(bytes: Bytes) -> (r: Result<ByteStr, InvalidUtf8>)
        ensures
            r is Ok <==> valid_utf8(bytes_contents(bytes)),
            r matches Ok(b) ==> b@ == bytes_contents(bytes) && b.wf(),
    {
        let ok = utf8_check(bytes_as_slice(&bytes));
        if ok {
            Ok(ByteStr::from_utf8_unchecked(bytes))
        } else {
            Err(InvalidUtf8)
        }
    }

    /// Builds from an owned string, reusing its buffer without copying.
    pub fn from_string(src: String) -> (r: ByteStr)
        ensures
            r@ == encode_utf8(src@) && r.wf(),
    {
        proof {
            encode_utf8_valid_utf8(src@);
        }
        // Invariant: src is a String, so its bytes are valid UTF-8.
        ByteStr { bytes: bytes_from_string(src) }
    }

    /// Builds from a borrowed string view; this copies, since the source
    /// is not known to be sharable.
    pub fn from_str(src: &str) -> (r: ByteStr)
        ensures
            r@ == encode_utf8(src@) && r.wf(),
    {
        proof {
            encode_utf8_valid_utf8(src@);
        }
        // Invariant: src is a str, so its bytes are valid UTF-8.
        ByteStr { bytes: bytes_copy_from_slice(src.as_bytes()) }
    }

    /// Consumes the string, handing back its shared buffer without
    /// copying.
    pub fn into_bytes(self) -> (r: Bytes)
        ensures
            bytes_contents(r) == self@,
    {
        self.bytes
    }

    /// The text, copied out of the shared buffer without re-validating.
    pub fn as_str(&self) -> (r: String)
        requires
            self.wf(),
        ensures
            encode_utf8(r@) == self@,
    {
        let v: Vec<u8> = slice_to_vec(bytes_as_slice(&self.bytes));
        string_from_utf8(v)
    }
}

impl Clone for ByteStr {
    /// Cloning is a cheap reference-count increment on the shared buffer
    /// and keeps the contents.
    fn clone(&self) -> (r: ByteStr)
        ensures
            r@ == self@ && r.wf() == self.wf(),
    {
        ByteStr { bytes: self.bytes.clone() }
    }
}

impl PartialEq for ByteStr {
    /// Equality operates byte-wise on the underlying buffer.
    fn eq(&self, other: &ByteStr) -> (r: bool) {
        bytes_eq(bytes_as_slice(&self.bytes), bytes_as_slice(&other.bytes))
    }
}

impl vstd::std_specs::cmp::PartialEqSpecImpl for ByteStr {
    open spec fn obeys_eq_spec() -> bool {
        true
    }

    open spec fn eq_spec(&self, other: &ByteStr) -> bool {
        self@ == other@
    }
}

impl Default for ByteStr {
    /// The default byte string is empty.
    fn default() -> (r: ByteStr)
        ensures
            r@ == Seq::<u8>::empty() && r.wf(),
    {
        ByteStr::new()
    }
}

} // verus!
