//! Represents an HTTP header field value: an opaque byte sequence
//! validated against the header-value grammar, carrying an independent
//! "sensitive" marker that affects only the debug rendering.
//!
//! In practice header values are usually valid ASCII, but the HTTP spec
//! also allows opaque bytes; such a value cannot be represented as a
//! string, so [`HeaderValue::to_str`] is fallible even on valid values.
use vstd::prelude::*;
use vstd::utf8::encode_utf8;
use vstd::std_specs::cmp::PartialEqSpec;
use vstd::std_specs::cmp::PartialOrdSpec;
use vstd::string::StringExecFns;
use core::cmp::Ordering;
use bytes::Bytes;
use crate::buf::bytes_contents;
use crate::buf::bytes_copy_from_slice;
use crate::buf::bytes_from_static;
use crate::buf::bytes_from_vec;
use crate::buf::bytes_len;
use crate::buf::bytes_as_slice;
use crate::text::chars_of_bytes;
use crate::text::string_from_ascii;
use crate::text::bytes_eq;
use crate::text::dec_rep;
use crate::text::dec_rep_signed;
use crate::text::lemma_dec_rep_digits;
use crate::method::Method;
use crate::method::lemma_wf_token;

verus! {

/// Represents an HTTP header field value.
pub struct HeaderValue {
    // Invariant (`wf`): every byte of inner is in the allowed
    // header-value byte set.
    inner: Bytes,
    is_sensitive: bool,
}

/// A possible error when converting a `HeaderValue` from a string or byte
/// slice: a byte outside the allowed header-value set.
#[derive(Clone, Debug, PartialEq, Eq, Structural)]
pub struct InvalidHeaderValue;

/// A possible error when converting a `HeaderValue` to a string
/// representation: the value holds opaque bytes outside the visible
/// ASCII range.
#[derive(Clone, Debug, PartialEq, Eq, Structural)]
pub struct ToStrError;

/// True when `b` may appear in a header value: tab, or any byte from 32
/// up except DEL (127). Bytes 128-255 are allowed as opaque octets.
pub open spec fn spec_is_valid(b: u8) -> bool {
    b >= 32 && b != 127 || b == 9
}

/// True when `b` is in the text-safe subset: visible ASCII or tab. Used
/// only for text extraction, not for construction.
pub open spec fn spec_is_visible_ascii(b: u8) -> bool {
    b >= 32 && b < 127 || b == 9
}

/// Executable form of [`spec_is_valid`].
pub fn is_valid(b: u8) -> (r: bool)
    ensures
        r == spec_is_valid(b),
{
    b >= 32 && b != 127 || b == 9
}

/// Executable form of [`spec_is_visible_ascii`].
pub fn is_visible_ascii(b: u8) -> (r: bool)
    ensures
        r == spec_is_visible_ascii(b),
{
    b >= 32 && b < 127 || b == 9
}

/// True when every byte of `s` may appear in a header value.
pub open spec fn all_valid(s: Seq<u8>) -> bool {
    forall|i: int| 0 <= i < s.len() ==> spec_is_valid(#[trigger] s[i])
}

/// True when every byte of `s` is in the text-safe subset.
pub open spec fn all_visible_ascii(s: Seq<u8>) -> bool {
    forall|i: int| 0 <= i < s.len() ==> spec_is_visible_ascii(#[trigger] s[i])
}

/// Scans a slice for bytes outside the allowed header-value set.
fn scan_valid(s: &[u8]) -> (r: bool)
    ensures
        r == all_valid(s@),
{
    let mut i: usize = 0;
    while i < s.len()
        invariant
            0 <= i <= s@.len(),
            forall|j: int| 0 <= j < i ==> spec_is_valid(#[trigger] s@[j]),
        decreases s@.len() - i,
    {
        if !is_valid(s[i]) {
            return false;
        }
        i = i + 1;
    }
    true
}

/// Scans a slice for bytes outside the text-safe subset.
fn scan_visible(s: &[u8]) -> (r: bool)
    ensures
        r == all_visible_ascii(s@),
{
    let mut i: usize = 0;
    while i < s.len()
        invariant
            0 <= i <= s@.len(),
            forall|j: int| 0 <= j < i ==> spec_is_visible_ascii(#[trigger] s@[j]),
        decreases s@.len() - i,
    {
        if !is_visible_ascii(s[i]) {
            return false;
        }
        i = i + 1;
    }
    true
}

impl View for HeaderValue {
    type V = Seq<u8>;

    /// The byte content of the value. The sensitivity flag is not part
    /// of the view.
    closed spec fn view(&self) -> Seq<u8> {
        bytes_contents(self.inner)
    }
}

impl HeaderValue {
    /// Well-formed: every byte is in the allowed header-value set.
    pub open spec fn wf(&self) -> bool {
        all_valid(self@)
    }

    /// The sensitivity marker; never part of equality or ordering.
    pub closed spec fn spec_sensitive(&self) -> bool {
        self.is_sensitive
    }

    /// Convert a static string to a `HeaderValue`, reusing the literal's
    /// storage. Every byte of the text must be in the allowed
    /// header-value set; opaque octets from non-ASCII text are permitted,
    /// as in any other constructor.
    #[must_use]
    pub fn from_static(src: &'static str) -> (r: HeaderValue)
        requires
            all_valid(encode_utf8(src@)),
        ensures
            r@ == encode_utf8(src@),
            r.wf(),
            !r.spec_sensitive(),
    {
        HeaderValue { inner: bytes_from_static(src.as_bytes()), is_sensitive: false }
    }

    /// Attempt to convert a string to a `HeaderValue`, copying its
    /// bytes. Fails when any byte of the string's UTF-8 form is outside
    /// the allowed set.
    pub fn from_str(src: &str) -> (r: Result<HeaderValue, InvalidHeaderValue>)
        ensures
            r is Ok <==> all_valid(encode_utf8(src@)),
            r matches Ok(v) ==> v@ == encode_utf8(src@) && v.wf() && !v.spec_sensitive(),
    {
        HeaderValue::from_bytes(src.as_bytes())
    }

    /// Attempt to convert a byte slice to a `HeaderValue`, copying it.
    /// Only byte values between 32 and 255 inclusive are permitted,
    /// excluding byte 127 (DEL) and including tab.
    pub fn from_bytes(src: &[u8]) -> (r: Result<HeaderValue, InvalidHeaderValue>)
        ensures
            r is Ok <==> all_valid(src@),
            r matches Ok(v) ==> v@ == src@ && v.wf() && !v.spec_sensitive(),
    {
        if scan_valid(src) {
            Ok(HeaderValue { inner: bytes_copy_from_slice(src), is_sensitive: false })
        } else {
            Err(InvalidHeaderValue)
        }
    }

    /// Attempt to convert a shared buffer to a `HeaderValue`. The buffer
    /// is the type used internally, so it is reused without copying.
    pub fn from_maybe_shared(src: Bytes) -> (r: Result<HeaderValue, InvalidHeaderValue>)
        ensures
            r is Ok <==> all_valid(bytes_contents(src)),
            r matches Ok(v) ==> v@ == bytes_contents(src) && v.wf() && !v.spec_sensitive(),
    {
        HeaderValue::from_shared(src)
    }

    /// Convert a shared buffer directly into a `HeaderValue` without
    /// scanning it; the caller proves every byte valid, and the buffer is
    /// reused without copying.
    pub fn from_maybe_shared_unchecked(src: Bytes) -> (r: HeaderValue)
        requires
            all_valid(bytes_contents(src)),
        ensures
            r@ == bytes_contents(src) && r.wf() && !r.spec_sensitive(),
    {
        HeaderValue { inner: src, is_sensitive: false }
    }

    /// Validating path shared by the buffer-reusing constructors.
    fn from_shared(src: Bytes) -> (r: Result<HeaderValue, InvalidHeaderValue>)
        ensures
            r is Ok <==> all_valid(bytes_contents(src)),
            r matches Ok(v) ==> v@ == bytes_contents(src) && v.wf() && !v.spec_sensitive(),
    {
        let ok = scan_valid(bytes_as_slice(&src));
        if ok {
            Ok(HeaderValue { inner: src, is_sensitive: false })
        } else {
            Err(InvalidHeaderValue)
        }
    }

    /// Converts a `Method` into a `HeaderValue`: every valid token byte
    /// is a valid header-value byte, so this never fails.
    pub fn from_method(m: &Method) -> (r: HeaderValue)
        requires
            m.wf(),
        ensures
            r@ == m@ && r.wf() && !r.spec_sensitive(),
    {
        let s = m.as_str();
        proof {
            lemma_wf_token(m);
        }
        HeaderValue { inner: bytes_copy_from_slice(s.as_str().as_bytes()), is_sensitive: false }
    }

    /// Yields the text of the value when it contains only visible ASCII
    /// characters (and tab); a value holding opaque octets is valid yet
    /// not representable as text, and fails here.
    pub fn to_str(&self) -> (r: Result<String, ToStrError>)
        ensures
            r is Ok <==> all_visible_ascii(self@),
            r matches Ok(s) ==> s@ == chars_of_bytes(self@) && encode_utf8(s@) == self@,
    {
        let bytes = bytes_as_slice(&self.inner);
        if scan_visible(bytes) {
            Ok(string_from_ascii(bytes))
        } else {
            Err(ToStrError)
        }
    }

    /// The length of the value in bytes.
    pub fn len(&self) -> (r: usize)
        ensures
            r == self@.len(),
    {
        bytes_len(&self.inner)
    }

    /// True when the value has a length of zero bytes.
    pub fn is_empty(&self) -> (r: bool)
        ensures
            r == (self@.len() == 0),
    {
        self.len() == 0
    }

    /// The value as a byte slice.
    pub fn as_bytes(&self) -> (r: &[u8])
        ensures
            r@ == self@,
    {
        bytes_as_slice(&self.inner)
    }

    /// Mark whether the header value represents sensitive information.
    /// The content is untouched; only the debug rendering changes.
    pub fn set_sensitive(&mut self, val: bool)
        ensures
            final(self)@ == old(self)@,
            final(self).spec_sensitive() == val,
    {
        self.is_sensitive = val;
    }

    /// Returns `true` if the value represents sensitive data. Sensitivity
    /// is not factored into equality or ordering.
    pub fn is_sensitive(&self) -> (r: bool)
        ensures
            r == self.spec_sensitive(),
    {
        self.is_sensitive
    }

    /// The full debug rendering: exactly `Sensitive` for sensitive
    /// values, else the escaped content between double quotes.
    pub open spec fn spec_debug_render(&self) -> Seq<char> {
        if self.spec_sensitive() {
            "Sensitive"@
        } else {
            chars_of_bytes(seq![34u8] + escape_bytes(self@) + seq![34u8])
        }
    }

    /// Renders the value for diagnostics. A sensitive value renders as
    /// exactly `Sensitive` in place of its content; any other value
    /// renders as a quoted string with double quotes and non-visible
    /// bytes escaped.
    pub fn debug_render(&self) -> (r: String)
        ensures
            r@ == self.spec_debug_render(),
    {
        if self.is_sensitive {
            String::from_str("Sensitive")
        } else {
            let bytes = bytes_as_slice(&self.inner);
            let mut out: Vec<u8> = Vec::new();
            out.push(34);
            let mut i: usize = 0;
            while i < bytes.len()
                invariant
                    0 <= i <= bytes@.len(),
                    out@ =~= seq![34u8] + escape_bytes(bytes@.take(i as int)),
                    forall|j: int| 0 <= j < out@.len() ==> #[trigger] out@[j] < 128,
                decreases bytes@.len() - i,
            {
                let b = bytes[i];
                if b == 34 {
                    out.push(92);
                    out.push(34);
                } else if is_visible_ascii(b) {
                    out.push(b);
                } else if b < 16 {
                    out.push(92);
                    out.push(120);
                    out.push(hex_digit_of(b));
                } else {
                    out.push(92);
                    out.push(120);
                    out.push(hex_digit_of(b / 16));
                    out.push(hex_digit_of(b % 16));
                }
                proof {
                    assert(bytes@.take(i as int + 1).drop_last() =~= bytes@.take(i as int));
                    assert(bytes@.take(i as int + 1).last() == bytes@[i as int]);
                    assert(out@ =~= seq![34u8] + escape_bytes(bytes@.take(i as int + 1)));
                }
                i = i + 1;
            }
            out.push(34);
            proof {
                assert(bytes@.take(bytes@.len() as int) =~= bytes@);
                assert(out@ =~= seq![34u8] + escape_bytes(self@) + seq![34u8]);
            }
            string_from_ascii(out.as_slice())
        }
    }

    /// Formats the integer in decimal. Every decimal digit is a valid
    /// header-value byte, so the conversion is infallible.
    pub fn from_u64(n: u64) -> (r: HeaderValue)
        ensures
            r@ == dec_rep(n as nat),
            all_visible_ascii(r@),
            r.wf(),
            !r.spec_sensitive(),
    {
        let digits = itoa_u64(n);
        proof {
            lemma_dec_rep_digits(n as nat);
        }
        HeaderValue { inner: bytes_from_vec(digits), is_sensitive: false }
    }

    /// Formats the integer in decimal, with a leading minus sign when
    /// negative; the conversion is infallible.
    pub fn from_i64(n: i64) -> (r: HeaderValue)
        ensures
            r@ == dec_rep_signed(n as int),
            all_visible_ascii(r@),
            r.wf(),
            !r.spec_sensitive(),
    {
        let digits = itoa_i64(n);
        proof {
            if n >= 0 {
                lemma_dec_rep_digits(n as nat);
            } else {
                let m = (-(n as int)) as nat;
                lemma_dec_rep_digits(m);
                assert forall|i: int| 0 <= i < digits@.len() implies spec_is_visible_ascii(
                    #[trigger] digits@[i],
                ) by {
                    if i == 0 {
                        assert(digits@[0] == 45u8);
                    } else {
                        assert(digits@[i] == dec_rep(m)[i - 1]);
                    }
                }
            }
        }
        HeaderValue { inner: bytes_from_vec(digits), is_sensitive: false }
    }

    /// Decimal conversion for a 16-bit unsigned value.
    pub fn from_u16(n: u16) -> (r: HeaderValue)
        ensures
            r@ == dec_rep(n as nat),
            r.wf(),
            !r.spec_sensitive(),
    {
        HeaderValue::from_u64(n as u64)
    }

    /// Decimal conversion for a 32-bit unsigned value.
    pub fn from_u32(n: u32) -> (r: HeaderValue)
        ensures
            r@ == dec_rep(n as nat),
            r.wf(),
            !r.spec_sensitive(),
    {
        HeaderValue::from_u64(n as u64)
    }

    /// Decimal conversion for a pointer-sized unsigned value.
    pub fn from_usize(n: usize) -> (r: HeaderValue)
        ensures
            r@ == dec_rep(n as nat),
            r.wf(),
            !r.spec_sensitive(),
    {
        HeaderValue::from_u64(n as u64)
    }

    /// Decimal conversion for a 16-bit signed value.
    pub fn from_i16(n: i16) -> (r: HeaderValue)
        ensures
            r@ == dec_rep_signed(n as int),
            r.wf(),
            !r.spec_sensitive(),
    {
        HeaderValue::from_i64(n as i64)
    }

    /// Decimal conversion for a 32-bit signed value.
    pub fn from_i32(n: i32) -> (r: HeaderValue)
        ensures
            r@ == dec_rep_signed(n as int),
            r.wf(),
            !r.spec_sensitive(),
    {
        HeaderValue::from_i64(n as i64)
    }

    /// Decimal conversion for a pointer-sized signed value.
    pub fn from_isize(n: isize) -> (r: HeaderValue)
        ensures
            r@ == dec_rep_signed(n as int),
            r.wf(),
            !r.spec_sensitive(),
    {
        HeaderValue::from_i64(n as i64)
    }
}

/// The lowercase hex digit for a value below 16.
pub open spec fn hex_digit(n: u8) -> u8 {
    if n < 10 {
        (48 + n) as u8
    } else {
        (87 + n) as u8
    }
}

/// Executable form of [`hex_digit`].
fn hex_digit_of(n: u8) -> (r: u8)
    requires
        n < 16,
    ensures
        r == hex_digit(n),
{
    if n < 10 {
        48 + n
    } else {
        87 + n
    }
}

/// The debug form of one byte: a visible byte other than the double
/// quote stands for itself, the double quote is escaped as `\"`, and
/// every other byte appears as `\xH` or `\xHH` in lowercase hex without
/// a leading zero.
pub open spec fn escaped_byte(b: u8) -> Seq<u8> {
    if b == 34 {
        seq![92u8, 34]
    } else if spec_is_visible_ascii(b) {
        seq![b]
    } else if b < 16 {
        seq![92u8, 120, hex_digit(b)]
    } else {
        seq![92u8, 120, hex_digit(b / 16), hex_digit(b % 16)]
    }
}

/// The debug form of a byte sequence: each byte escaped in turn.
pub open spec fn escape_bytes(s: Seq<u8>) -> Seq<u8>
    decreases s.len(),
{
    if s.len() == 0 {
        Seq::<u8>::empty()
    } else {
        escape_bytes(s.drop_last()) + escaped_byte(s.last())
    }
}

/// Relies on `itoa::Buffer::format` on a `u64`: the decimal digit string
/// of the value, most significant digit first, without leading zeros.
#[verifier::external_body]
fn itoa_u64(n: u64) -> (r: Vec<u8>)
    ensures
        r@ == dec_rep(n as nat),
{
    itoa::Buffer::new().format(n).as_bytes().to_vec()
}

/// Relies on `itoa::Buffer::format` on an `i64`: the decimal digit
/// string, with a leading minus sign when the value is negative.
#[verifier::external_body]
fn itoa_i64(n: i64) -> (r: Vec<u8>)
    ensures
        r@ == dec_rep_signed(n as int),
{
    itoa::Buffer::new().format(n).as_bytes().to_vec()
}

/// Lexicographic order on byte sequences: the order that `Ord` on byte
/// slices and on the shared buffer type both follow.
pub open spec fn lex_cmp(a: Seq<u8>, b: Seq<u8>) -> Ordering
    decreases a.len(),
{
    if a.len() == 0 && b.len() == 0 {
        Ordering::Equal
    } else if a.len() == 0 {
        Ordering::Less
    } else if b.len() == 0 {
        Ordering::Greater
    } else if a[0] < b[0] {
        Ordering::Less
    } else if a[0] > b[0] {
        Ordering::Greater
    } else {
        lex_cmp(a.skip(1), b.skip(1))
    }
}

/// Comparing after a common prefix: dropping equal leading bytes leaves
/// the lexicographic order unchanged.
proof fn lemma_lex_skip(a: Seq<u8>, b: Seq<u8>, i: int)
    requires
        0 <= i <= a.len(),
        i <= b.len(),
        forall|j: int| 0 <= j < i ==> a[j] == b[j],
    ensures
        lex_cmp(a, b) == lex_cmp(a.skip(i), b.skip(i)),
    decreases i,
{
    if i > 0 {
        assert(a[0] == b[0]);
        assert forall|j: int| 0 <= j < i - 1 implies a.skip(1)[j] == b.skip(1)[j] by {
            assert(a[j + 1] == b[j + 1]);
        }
        lemma_lex_skip(a.skip(1), b.skip(1), i - 1);
        assert(a.skip(1).skip(i - 1) =~= a.skip(i));
        assert(b.skip(1).skip(i - 1) =~= b.skip(i));
        assert(a.skip(0) =~= a);
        assert(b.skip(0) =~= b);
    } else {
        assert(a.skip(0) =~= a);
        assert(b.skip(0) =~= b);
    }
}

/// Lexicographic order finds two sequences equal exactly when they are
/// the same sequence.
proof fn lemma_lex_eq(a: Seq<u8>, b: Seq<u8>)
    ensures
        (lex_cmp(a, b) == Ordering::Equal) <==> a == b,
    decreases a.len(),
{
    if a.len() == 0 && b.len() == 0 {
        assert(a =~= b);
    } else if a.len() == 0 || b.len() == 0 {
        assert(a != b);
    } else if a[0] == b[0] {
        lemma_lex_eq(a.skip(1), b.skip(1));
        if lex_cmp(a, b) == Ordering::Equal {
            assert(a.skip(1) == b.skip(1));
            assert forall|j: int| 0 <= j < a.len() implies a[j] == b[j] by {
                if j > 0 {
                    assert(a.skip(1)[j - 1] == b.skip(1)[j - 1]);
                }
            }
            assert(a =~= b);
        }
        if a == b {
            assert(a.skip(1) == b.skip(1));
        }
    } else {
        if a == b {
            assert(a[0] == b[0]);
        }
    }
}

/// Compares two byte slices lexicographically.
fn lex_compare(a: &[u8], b: &[u8]) -> (r: Ordering)
    ensures
        r == lex_cmp(a@, b@),
{
    let an = a.len();
    let bn = b.len();
    let n: usize = if an < bn {
        an
    } else {
        bn
    };
    let mut i: usize = 0;
    while i < n
        invariant
            n <= a@.len(),
            n <= b@.len(),
            n == if a@.len() < b@.len() {
                a@.len()
            } else {
                b@.len()
            },
            0 <= i <= n,
            forall|j: int| 0 <= j < i ==> a@[j] == b@[j],
        decreases n - i,
    {
        let x = a[i];
        let y = b[i];
        if x < y {
            proof {
                lemma_lex_skip(a@, b@, i as int);
            }
            return Ordering::Less;
        }
        if x > y {
            proof {
                lemma_lex_skip(a@, b@, i as int);
            }
            return Ordering::Greater;
        }
        i = i + 1;
    }
    proof {
        lemma_lex_skip(a@, b@, n as int);
    }
    if an == bn {
        Ordering::Equal
    } else if an < bn {
        Ordering::Less
    } else {
        Ordering::Greater
    }
}

impl Clone for HeaderValue {
    /// Cloning is a cheap reference-count increment on the shared buffer
    /// and keeps both the bytes and the sensitivity flag.
    fn clone(&self) -> (r: HeaderValue)
        ensures
            r@ == self@,
            r.spec_sensitive() == self.spec_sensitive(),
            r.wf() == self.wf(),
    {
        HeaderValue { inner: self.inner.clone(), is_sensitive: self.is_sensitive }
    }
}

impl PartialEq for HeaderValue {
    /// Equality is defined purely over the byte content; the sensitivity
    /// flag never participates.
    fn eq(&self, other: &HeaderValue) -> (r: bool) {
        bytes_eq(bytes_as_slice(&self.inner), bytes_as_slice(&other.inner))
    }
}

impl vstd::std_specs::cmp::PartialEqSpecImpl for HeaderValue {
    open spec fn obeys_eq_spec() -> bool {
        true
    }

    open spec fn eq_spec(&self, other: &HeaderValue) -> bool {
        self@ == other@
    }
}

impl PartialOrd for HeaderValue {
    /// Ordering is defined purely over the byte content; the sensitivity
    /// flag never participates.
    fn partial_cmp(&self, other: &HeaderValue) -> (r: Option<Ordering>) {
        Some(lex_compare(bytes_as_slice(&self.inner), bytes_as_slice(&other.inner)))
    }
}

impl vstd::std_specs::cmp::PartialOrdSpecImpl for HeaderValue {
    open spec fn obeys_partial_cmp_spec() -> bool {
        true
    }

    open spec fn partial_cmp_spec(&self, other: &HeaderValue) -> Option<Ordering> {
        Some(lex_cmp(self@, other@))
    }
}

/// Law: equality and ordering of header values ignore the sensitivity
/// flag entirely — two values with identical bytes, whatever their
/// flags, are equal and compare as `Equal`.
pub proof fn lemma_sensitivity_excluded(a: &HeaderValue, b: &HeaderValue)
    requires
        a@ == b@,
    ensures
        a.eq_spec(b),
        b.eq_spec(a),
        a.partial_cmp_spec(b) == Some(Ordering::Equal),
        b.partial_cmp_spec(a) == Some(Ordering::Equal),
{
    lemma_lex_eq(a@, b@);
    lemma_lex_eq(b@, a@);
}

} // verus!
