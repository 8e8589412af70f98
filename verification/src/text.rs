//! Byte/character conversions shared by the value types.
//!
//! The validated types in this crate store their payloads as bytes; their
//! textual views are stated with the spec functions below, together with
//! vstd's UTF-8 model.
use vstd::prelude::*;
use vstd::utf8::encode_utf8;
use vstd::utf8::valid_utf8;
use vstd::utf8::is_ascii_chars;
use vstd::utf8::is_ascii_chars_encode_utf8;
use vstd::utf8::encode_utf8_valid_utf8;
use vstd::utf8::encode_utf8_decode_utf8;
use vstd::slice::slice_to_vec;

verus! {

/// Each byte read as one character; faithful to the text exactly when the
/// bytes are ASCII.
pub open spec fn chars_of_bytes(s: Seq<u8>) -> Seq<char> {
    Seq::new(s.len(), |i: int| s[i] as char)
}

/// The code of each character as one byte; inverse of [`chars_of_bytes`] on
/// ASCII data.
pub open spec fn bytes_of_chars(s: Seq<char>) -> Seq<u8> {
    Seq::new(s.len(), |i: int| s[i] as u8)
}

/// A sequence of bytes below 128 is valid UTF-8, decodes byte-by-byte, and
/// re-encodes to itself.
pub proof fn lemma_ascii_bytes(s: Seq<u8>)
    requires
        forall|i: int| 0 <= i < s.len() ==> s[i] < 128,
    ensures
        is_ascii_chars(chars_of_bytes(s)),
        encode_utf8(chars_of_bytes(s)) =~= s,
        valid_utf8(s),
        bytes_of_chars(chars_of_bytes(s)) =~= s,
{
    let cs = chars_of_bytes(s);
    assert forall|i: int| 0 <= i < cs.len() implies '\0' <= #[trigger] cs[i] <= '\u{7f}' by {
        assert(s[i] < 128);
    }
    is_ascii_chars_encode_utf8(cs);
    assert(encode_utf8(cs) =~= s);
    encode_utf8_valid_utf8(cs);
}

/// The decimal digit bytes of `n`, most significant first, with no
/// leading zeros.
pub open spec fn dec_rep(n: nat) -> Seq<u8>
    decreases n,
{
    if n < 10 {
        seq![(48 + n) as u8]
    } else {
        dec_rep((n / 10) as nat) + seq![(48 + n % 10) as u8]
    }
}

/// The decimal form of a signed value: a minus sign before the digits of
/// the magnitude.
pub open spec fn dec_rep_signed(n: int) -> Seq<u8> {
    if n >= 0 {
        dec_rep(n as nat)
    } else {
        seq![45u8] + dec_rep((-n) as nat)
    }
}

/// Every byte of a decimal representation is an ASCII digit.
pub proof fn lemma_dec_rep_digits(n: nat)
    ensures
        forall|i: int| 0 <= i < dec_rep(n).len() ==> 48 <= #[trigger] dec_rep(n)[i] <= 57,
    decreases n,
{
    if n < 10 {
        assert(dec_rep(n)[0] == (48 + n) as u8);
    } else {
        lemma_dec_rep_digits((n / 10) as nat);
        let hd = dec_rep((n / 10) as nat);
        let tl = seq![(48 + n % 10) as u8];
        assert(dec_rep(n) == hd + tl);
        assert forall|i: int| 0 <= i < dec_rep(n).len() implies 48 <= #[trigger] dec_rep(n)[i]
            <= 57 by {
            if i < hd.len() {
                assert(dec_rep(n)[i] == hd[i]);
            } else {
                assert(dec_rep(n)[i] == tl[i - hd.len()]);
                assert(tl[0] == (48 + n % 10) as u8);
            }
        }
    }
}

/// Byte-wise equality of two slices.
pub fn bytes_eq(a: &[u8], b: &[u8]) -> (r: bool)
    ensures
        r == (a@ == b@),
{
    if a.len() != b.len() {
        return false;
    }
    let mut i: usize = 0;
    while i < a.len()
        invariant
            a@.len() == b@.len(),
            0 <= i <= a@.len(),
            forall|j: int| 0 <= j < i ==> a@[j] == b@[j],
        decreases a@.len() - i,
    {
        if a[i] != b[i] {
            return false;
        }
        i = i + 1;
    }
    proof {
        assert(a@ =~= b@);
    }
    true
}

/// Relies on `str::from_utf8`: it succeeds exactly on valid UTF-8 input.
#[verifier::external_body]
pub(crate) fn utf8_check(b: &[u8]) -> (r: bool)
    ensures
        r == valid_utf8(b@),
{
    core::str::from_utf8(b).is_ok()
}

/// Relies on `String::from_utf8`: on valid UTF-8 input it returns the string
/// whose UTF-8 encoding is exactly the input buffer.
#[verifier::external_body]
pub(crate) fn string_from_utf8(v: Vec<u8>) -> (r: String)
    requires
        valid_utf8(v@),
    ensures
        encode_utf8(r@) == v@,
{
    String::from_utf8(v).unwrap()
}

/// Builds the string whose characters are the given ASCII bytes, one
/// character per byte.
pub fn string_from_ascii(s: &[u8]) -> (r: String)
    requires
        forall|i: int| 0 <= i < s@.len() ==> s@[i] < 128,
    ensures
        r@ == chars_of_bytes(s@),
        encode_utf8(r@) == s@,
{
    proof {
        lemma_ascii_bytes(s@);
    }
    let v: Vec<u8> = slice_to_vec(s);
    let r = string_from_utf8(v);
    proof {
        encode_utf8_decode_utf8(r@);
        encode_utf8_decode_utf8(chars_of_bytes(s@));
    }
    r
}

} // verus!
