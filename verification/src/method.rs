//! The HTTP request method: a validated token per RFC 9110 section 9.1
//! (`method = token`, `token = 1*tchar`).
//!
//! Construction dispatches on the byte length and recognises the nine
//! standard verbs without allocating; any other token is validated
//! character by character and stored inline when it fits in a fixed
//! 15-byte buffer, or in a heap buffer sized to the token otherwise.
use vstd::prelude::*;
use vstd::utf8::encode_utf8;
use crate::is_tchar;
use crate::tchar;
use crate::text::chars_of_bytes;
use crate::text::bytes_of_chars;
use crate::text::string_from_ascii;
use crate::text::bytes_eq;
use crate::text::lemma_ascii_bytes;
use vstd::std_specs::cmp::PartialEqSpec;

verus! {

/// Longest token stored without allocation. The length dispatch in
/// [`Method::from_bytes`] relies on this being at least 7, the length of
/// the longest standard verb.
pub const MAX_INLINE: usize = 15;

/// The Request Method (VERB).
#[derive(Debug, Hash)]
pub struct Method(Inner);

/// A possible error value when converting a `Method` from bytes: the
/// input was empty or held a byte outside the token alphabet.
#[derive(Clone, Debug, PartialEq, Eq, Structural)]
pub struct InvalidMethod;

#[derive(Debug, Hash)]
enum Inner {
    Options,
    Get,
    Post,
    Put,
    Delete,
    Head,
    Trace,
    Connect,
    Patch,
    // If the extension is short enough, store it inline
    ExtensionInline(InlineExtension),
    // Otherwise, allocate it
    ExtensionAllocated(AllocatedExtension),
}

/// A token of at most [`MAX_INLINE`] bytes, stored in place beside its
/// length.
#[derive(Clone, Copy, Debug, Hash)]
pub struct InlineExtension([u8; MAX_INLINE], u8);

/// A token stored on a heap buffer sized exactly to its length.
#[derive(Debug, Hash)]
pub struct AllocatedExtension(Vec<u8>);

/// True when `s` is a non-empty sequence of `tchar` bytes: the tokens the
/// method constructor accepts.
pub open spec fn is_token(s: Seq<u8>) -> bool {
    s.len() > 0 && forall|i: int| 0 <= i < s.len() ==> is_tchar(#[trigger] s[i])
}

/// The bytes of `GET`.
pub open spec fn token_get() -> Seq<u8> {
    seq![71u8, 69, 84]
}

/// The bytes of `PUT`.
pub open spec fn token_put() -> Seq<u8> {
    seq![80u8, 85, 84]
}

/// The bytes of `POST`.
pub open spec fn token_post() -> Seq<u8> {
    seq![80u8, 79, 83, 84]
}

/// The bytes of `HEAD`.
pub open spec fn token_head() -> Seq<u8> {
    seq![72u8, 69, 65, 68]
}

/// The bytes of `PATCH`.
pub open spec fn token_patch() -> Seq<u8> {
    seq![80u8, 65, 84, 67, 72]
}

/// The bytes of `TRACE`.
pub open spec fn token_trace() -> Seq<u8> {
    seq![84u8, 82, 65, 67, 69]
}

/// The bytes of `DELETE`.
pub open spec fn token_delete() -> Seq<u8> {
    seq![68u8, 69, 76, 69, 84, 69]
}

/// The bytes of `OPTIONS`.
pub open spec fn token_options() -> Seq<u8> {
    seq![79u8, 80, 84, 73, 79, 78, 83]
}

/// The bytes of `CONNECT`.
pub open spec fn token_connect() -> Seq<u8> {
    seq![67u8, 79, 78, 78, 69, 67, 84]
}

/// True when `s` spells one of the nine standard verbs.
pub open spec fn is_standard_token(s: Seq<u8>) -> bool {
    ||| s == token_get()
    ||| s == token_put()
    ||| s == token_post()
    ||| s == token_head()
    ||| s == token_patch()
    ||| s == token_trace()
    ||| s == token_delete()
    ||| s == token_options()
    ||| s == token_connect()
}

/// True when `s` spells a safe (read-only) verb: GET, HEAD, OPTIONS or
/// TRACE.
pub open spec fn is_safe_token(s: Seq<u8>) -> bool {
    ||| s == token_get()
    ||| s == token_head()
    ||| s == token_options()
    ||| s == token_trace()
}

impl View for InlineExtension {
    type V = Seq<u8>;

    /// The stored token: the first `len` bytes of the buffer (the length
    /// clamped to the capacity, so the view is total).
    closed spec fn view(&self) -> Seq<u8> {
        self.0@.take(if self.1 <= MAX_INLINE as u8 {
            self.1 as int
        } else {
            MAX_INLINE as int
        })
    }
}

impl View for AllocatedExtension {
    type V = Seq<u8>;

    closed spec fn view(&self) -> Seq<u8> {
        self.0@
    }
}

impl View for Method {
    type V = Seq<u8>;

    /// The token bytes of the method.
    closed spec fn view(&self) -> Seq<u8> {
        match self.0 {
            Inner::Options => token_options(),
            Inner::Get => token_get(),
            Inner::Post => token_post(),
            Inner::Put => token_put(),
            Inner::Delete => token_delete(),
            Inner::Head => token_head(),
            Inner::Trace => token_trace(),
            Inner::Connect => token_connect(),
            Inner::Patch => token_patch(),
            Inner::ExtensionInline(e) => e@,
            Inner::ExtensionAllocated(a) => a@,
        }
    }
}

impl InlineExtension {
    /// Well-formed: the length fits the buffer and the stored bytes form
    /// a token.
    pub closed spec fn wf(&self) -> bool {
        self.1 <= MAX_INLINE as u8 && is_token(self@)
    }

    /// Validates `src` and stores a copy of it inline.
    pub fn new(src: &[u8]) -> (r: Result<InlineExtension, InvalidMethod>)
        requires
            0 < src@.len() <= MAX_INLINE,
        ensures
            r is Ok <==> is_token(src@),
            r matches Ok(e) ==> e@ == src@ && e.wf(),
    {
        let mut data: [u8; MAX_INLINE] = [0; MAX_INLINE];
        let mut i: usize = 0;
        while i < src.len()
            invariant
                0 < src@.len() <= MAX_INLINE,
                0 <= i <= src@.len(),
                data@.len() == MAX_INLINE,
                forall|j: int| 0 <= j < i ==> data@[j] == src@[j] && is_tchar(#[trigger] src@[j]),
            decreases src@.len() - i,
        {
            let b = src[i];
            if !tchar(b) {
                return Err(InvalidMethod);
            }
            data[i] = b;
            i = i + 1;
        }
        let e = InlineExtension(data, src.len() as u8);
        proof {
            assert(e@ =~= src@);
        }
        Ok(e)
    }

    /// The stored token bytes, copied out.
    fn token_vec(&self) -> (v: Vec<u8>)
        ensures
            v@ == self@,
    {
        let InlineExtension(data, len) = self;
        let n: usize = if *len as usize <= MAX_INLINE {
            *len as usize
        } else {
            MAX_INLINE
        };
        let mut v: Vec<u8> = Vec::new();
        let mut i: usize = 0;
        while i < n
            invariant
                n <= MAX_INLINE,
                data@.len() == MAX_INLINE,
                0 <= i <= n,
                v@ =~= data@.take(n as int).take(i as int),
            decreases n - i,
        {
            v.push(data[i]);
            i = i + 1;
        }
        proof {
            assert(v@ =~= self@);
        }
        v
    }

    /// The token as text.
    pub fn as_str(&self) -> (r: String)
        requires
            self.wf(),
        ensures
            r@ == chars_of_bytes(self@),
    {
        let v = self.token_vec();
        proof {
            lemma_tchar_ascii(self@);
        }
        string_from_ascii(v.as_slice())
    }
}

/// An owned buffer of three given bytes.
fn make_vec3(a: u8, b: u8, c: u8) -> (v: Vec<u8>)
    ensures
        v@ == seq![a, b, c],
{
    let mut v: Vec<u8> = Vec::new();
    v.push(a);
    v.push(b);
    v.push(c);
    proof {
        assert(v@ =~= seq![a, b, c]);
    }
    v
}

/// An owned buffer of four given bytes.
fn make_vec4(a: u8, b: u8, c: u8, d: u8) -> (v: Vec<u8>)
    ensures
        v@ == seq![a, b, c, d],
{
    let mut v = make_vec3(a, b, c);
    v.push(d);
    proof {
        assert(v@ =~= seq![a, b, c, d]);
    }
    v
}

/// An owned buffer of seven given bytes.
fn make_vec7(a: u8, b: u8, c: u8, d: u8, e: u8, f: u8, g: u8) -> (v: Vec<u8>)
    ensures
        v@ == seq![a, b, c, d, e, f, g],
{
    let mut v = make_vec4(a, b, c, d);
    v.push(e);
    v.push(f);
    v.push(g);
    proof {
        assert(v@ =~= seq![a, b, c, d, e, f, g]);
    }
    v
}

impl Method {
    /// Well-formed: an extension token fits its storage, spells a valid
    /// non-empty token, and never spells one of the nine standard verbs
    /// (those always take the fast-path representation).
    pub closed spec fn wf(&self) -> bool {
        match self.0 {
            Inner::ExtensionInline(e) => e.wf() && !is_standard_token(e@),
            Inner::ExtensionAllocated(a) => a.wf() && !is_standard_token(a@),
            _ => true,
        }
    }

    /// True when the method uses the fast-path representation of a
    /// standard verb.
    pub closed spec fn is_standard(&self) -> bool {
        !(self.0 is ExtensionInline) && !(self.0 is ExtensionAllocated)
    }

    /// True when the token is stored in the fixed inline buffer.
    pub closed spec fn is_inline(&self) -> bool {
        self.0 is ExtensionInline
    }

    /// True when the token is stored on an allocated buffer.
    pub closed spec fn is_allocated(&self) -> bool {
        self.0 is ExtensionAllocated
    }

    /// GET
    pub fn get() -> (m: Method)
        ensures
            m@ == token_get() && m.wf() && m.is_standard(),
    {
        Method(Inner::Get)
    }

    /// POST
    pub fn post() -> (m: Method)
        ensures
            m@ == token_post() && m.wf() && m.is_standard(),
    {
        Method(Inner::Post)
    }

    /// PUT
    pub fn put() -> (m: Method)
        ensures
            m@ == token_put() && m.wf() && m.is_standard(),
    {
        Method(Inner::Put)
    }

    /// DELETE
    pub fn delete() -> (m: Method)
        ensures
            m@ == token_delete() && m.wf() && m.is_standard(),
    {
        Method(Inner::Delete)
    }

    /// HEAD
    pub fn head() -> (m: Method)
        ensures
            m@ == token_head() && m.wf() && m.is_standard(),
    {
        Method(Inner::Head)
    }

    /// OPTIONS
    pub fn options() -> (m: Method)
        ensures
            m@ == token_options() && m.wf() && m.is_standard(),
    {
        Method(Inner::Options)
    }

    /// CONNECT
    pub fn connect() -> (m: Method)
        ensures
            m@ == token_connect() && m.wf() && m.is_standard(),
    {
        Method(Inner::Connect)
    }

    /// PATCH
    pub fn patch() -> (m: Method)
        ensures
            m@ == token_patch() && m.wf() && m.is_standard(),
    {
        Method(Inner::Patch)
    }

    /// TRACE
    pub fn trace() -> (m: Method)
        ensures
            m@ == token_trace() && m.wf() && m.is_standard(),
    {
        Method(Inner::Trace)
    }

    /// Converts a slice of bytes to an HTTP method. Succeeds exactly on
    /// non-empty all-`tchar` input, yields a method with exactly those
    /// bytes, and picks the representation by content: the fast path for
    /// the nine standard verbs, otherwise inline storage up to
    /// [`MAX_INLINE`] bytes and allocated storage beyond it.
    pub fn from_bytes(src: &[u8]) -> (r: Result<Method, InvalidMethod>)
        ensures
            r is Ok <==> is_token(src@),
            r matches Ok(m) ==> {
                &&& m@ == src@
                &&& m.wf()
                &&& (m.is_standard() <==> is_standard_token(src@))
                &&& (m.is_inline() <==> !is_standard_token(src@) && src@.len() <= MAX_INLINE)
                &&& (m.is_allocated() <==> src@.len() > MAX_INLINE)
            },
    {
        match src.len() {
            0 => Err(InvalidMethod),
            3 => {
                if src[0] == 71 && src[1] == 69 && src[2] == 84 {
                    proof {
                        assert(src@ =~= token_get());
                    }
                    Ok(Method(Inner::Get))
                } else if src[0] == 80 && src[1] == 85 && src[2] == 84 {
                    proof {
                        assert(src@ =~= token_put());
                    }
                    Ok(Method(Inner::Put))
                } else {
                    Method::extension_inline(src)
                }
            },
            4 => {
                if src[0] == 80 && src[1] == 79 && src[2] == 83 && src[3] == 84 {
                    proof {
                        assert(src@ =~= token_post());
                    }
                    Ok(Method(Inner::Post))
                } else if src[0] == 72 && src[1] == 69 && src[2] == 65 && src[3] == 68 {
                    proof {
                        assert(src@ =~= token_head());
                    }
                    Ok(Method(Inner::Head))
                } else {
                    Method::extension_inline(src)
                }
            },
            5 => {
                if src[0] == 80 && src[1] == 65 && src[2] == 84 && src[3] == 67 && src[4] == 72 {
                    proof {
                        assert(src@ =~= token_patch());
                    }
                    Ok(Method(Inner::Patch))
                } else if src[0] == 84 && src[1] == 82 && src[2] == 65 && src[3] == 67 && src[4]
                    == 69 {
                    proof {
                        assert(src@ =~= token_trace());
                    }
                    Ok(Method(Inner::Trace))
                } else {
                    Method::extension_inline(src)
                }
            },
            6 => {
                if src[0] == 68 && src[1] == 69 && src[2] == 76 && src[3] == 69 && src[4] == 84
                    && src[5] == 69 {
                    proof {
                        assert(src@ =~= token_delete());
                    }
                    Ok(Method(Inner::Delete))
                } else {
                    Method::extension_inline(src)
                }
            },
            7 => {
                if src[0] == 79 && src[1] == 80 && src[2] == 84 && src[3] == 73 && src[4] == 79
                    && src[5] == 78 && src[6] == 83 {
                    proof {
                        assert(src@ =~= token_options());
                    }
                    Ok(Method(Inner::Options))
                } else if src[0] == 67 && src[1] == 79 && src[2] == 78 && src[3] == 78 && src[4]
                    == 69 && src[5] == 67 && src[6] == 84 {
                    proof {
                        assert(src@ =~= token_connect());
                    }
                    Ok(Method(Inner::Connect))
                } else {
                    Method::extension_inline(src)
                }
            },
            _ => {
                if src.len() <= MAX_INLINE {
                    Method::extension_inline(src)
                } else {
                    match AllocatedExtension::new(src) {
                        Ok(a) => Ok(Method(Inner::ExtensionAllocated(a))),
                        Err(e) => Err(e),
                    }
                }
            },
        }
    }

    /// Wraps a short non-standard token in the inline representation.
    fn extension_inline(src: &[u8]) -> (r: Result<Method, InvalidMethod>)
        requires
            0 < src@.len() <= MAX_INLINE,
            !is_standard_token(src@),
        ensures
            r is Ok <==> is_token(src@),
            r matches Ok(m) ==> m@ == src@ && m.wf() && m.is_inline() && !m.is_standard()
                && !m.is_allocated(),
    {
        match InlineExtension::new(src) {
            Ok(inline) => Ok(Method(Inner::ExtensionInline(inline))),
            Err(e) => Err(e),
        }
    }

    /// Whether a method is considered "safe", meaning the request is
    /// essentially read-only: GET, HEAD, OPTIONS or TRACE (RFC 9110
    /// section 9.2.1).
    #[must_use]
    pub fn is_safe(&self) -> (r: bool)
        requires
            self.wf(),
        ensures
            r == is_safe_token(self@),
    {
        match self.0 {
            Inner::Get | Inner::Head | Inner::Options | Inner::Trace => true,
            _ => false,
        }
    }

    /// Whether a method is considered "idempotent", meaning the request
    /// has the same result if executed multiple times: every safe method
    /// plus PUT and DELETE (RFC 9110 section 9.2.2).
    #[must_use]
    pub fn is_idempotent(&self) -> (r: bool)
        requires
            self.wf(),
        ensures
            r == (is_safe_token(self@) || self@ == token_put() || self@ == token_delete()),
    {
        match self.0 {
            Inner::Put | Inner::Delete => true,
            _ => self.is_safe(),
        }
    }

    /// The token bytes, copied into an owned buffer.
    fn token_vec(&self) -> (v: Vec<u8>)
        ensures
            v@ == self@,
    {
        match &self.0 {
            Inner::Options => {
                let v = make_vec7(79, 80, 84, 73, 79, 78, 83);
                proof {
                    assert(v@ =~= token_options());
                }
                v
            },
            Inner::Get => {
                let v = make_vec3(71, 69, 84);
                proof {
                    assert(v@ =~= token_get());
                }
                v
            },
            Inner::Post => {
                let v = make_vec4(80, 79, 83, 84);
                proof {
                    assert(v@ =~= token_post());
                }
                v
            },
            Inner::Put => {
                let v = make_vec3(80, 85, 84);
                proof {
                    assert(v@ =~= token_put());
                }
                v
            },
            Inner::Delete => {
                let mut v = make_vec4(68, 69, 76, 69);
                v.push(84);
                v.push(69);
                proof {
                    assert(v@ =~= token_delete());
                }
                v
            },
            Inner::Head => {
                let v = make_vec4(72, 69, 65, 68);
                proof {
                    assert(v@ =~= token_head());
                }
                v
            },
            Inner::Trace => {
                let mut v = make_vec4(84, 82, 65, 67);
                v.push(69);
                proof {
                    assert(v@ =~= token_trace());
                }
                v
            },
            Inner::Connect => {
                let v = make_vec7(67, 79, 78, 78, 69, 67, 84);
                proof {
                    assert(v@ =~= token_connect());
                }
                v
            },
            Inner::Patch => {
                let mut v = make_vec4(80, 65, 84, 67);
                v.push(72);
                proof {
                    assert(v@ =~= token_patch());
                }
                v
            },
            Inner::ExtensionInline(e) => e.token_vec(),
            Inner::ExtensionAllocated(a) => {
                let mut v: Vec<u8> = Vec::new();
                v.extend_from_slice(a.0.as_slice());
                proof {
                    assert(v@ =~= a@);
                }
                v
            },
        }
    }

    /// Return a text representation of the HTTP method.
    #[must_use]
    pub fn as_str(&self) -> (r: String)
        requires
            self.wf(),
        ensures
            r@ == chars_of_bytes(self@),
            encode_utf8(r@) == self@,
    {
        let v = self.token_vec();
        proof {
            lemma_wf_token(self);
            lemma_tchar_ascii(self@);
            lemma_ascii_bytes(self@);
        }
        string_from_ascii(v.as_slice())
    }
}

impl Clone for AllocatedExtension {
    /// Cloning keeps the token bytes.
    fn clone(&self) -> (r: AllocatedExtension)
        ensures
            r@ == self@ && r.wf() == self.wf(),
    {
        AllocatedExtension(self.0.clone())
    }
}

impl Clone for Method {
    /// Cloning keeps the token bytes and the storage representation.
    fn clone(&self) -> (r: Method)
        ensures
            r@ == self@,
            r.wf() == self.wf(),
            r.is_standard() == self.is_standard(),
            r.is_inline() == self.is_inline(),
            r.is_allocated() == self.is_allocated(),
    {
        match &self.0 {
            Inner::Options => Method(Inner::Options),
            Inner::Get => Method(Inner::Get),
            Inner::Post => Method(Inner::Post),
            Inner::Put => Method(Inner::Put),
            Inner::Delete => Method(Inner::Delete),
            Inner::Head => Method(Inner::Head),
            Inner::Trace => Method(Inner::Trace),
            Inner::Connect => Method(Inner::Connect),
            Inner::Patch => Method(Inner::Patch),
            Inner::ExtensionInline(e) => Method(Inner::ExtensionInline(*e)),
            Inner::ExtensionAllocated(a) => Method(Inner::ExtensionAllocated(a.clone())),
        }
    }
}

impl PartialEq for Method {
    /// Two methods are equal exactly when their token bytes are equal,
    /// whichever representation each uses.
    fn eq(&self, other: &Method) -> (r: bool) {
        let a = self.token_vec();
        let b = other.token_vec();
        bytes_eq(a.as_slice(), b.as_slice())
    }
}

impl vstd::std_specs::cmp::PartialEqSpecImpl for Method {
    open spec fn obeys_eq_spec() -> bool {
        true
    }

    open spec fn eq_spec(&self, other: &Method) -> bool {
        self@ == other@
    }
}

impl Default for Method {
    /// The default method is GET.
    fn default() -> (m: Method)
        ensures
            m@ == token_get() && m.wf() && m.is_standard(),
    {
        Method(Inner::Get)
    }
}

/// A well-formed method's bytes always form a non-empty token.
pub proof fn lemma_wf_token(m: &Method)
    requires
        m.wf(),
    ensures
        is_token(m@),
{
    assert(is_tchar(71) && is_tchar(69) && is_tchar(84) && is_tchar(80) && is_tchar(85)
        && is_tchar(79) && is_tchar(83) && is_tchar(72) && is_tchar(65) && is_tchar(68)
        && is_tchar(67) && is_tchar(82) && is_tchar(76) && is_tchar(73) && is_tchar(78));
}

/// Law: extracting a well-formed method's text and re-encoding it as
/// bytes reproduces the token bytes exactly — both through the UTF-8
/// encoding of the text and through its character codes.
pub proof fn lemma_method_round_trip(m: &Method)
    requires
        m.wf(),
    ensures
        encode_utf8(chars_of_bytes(m@)) == m@,
        bytes_of_chars(chars_of_bytes(m@)) == m@,
{
    lemma_wf_token(m);
    lemma_tchar_ascii(m@);
    lemma_ascii_bytes(m@);
}

/// Law: methods are compared by their token bytes alone; two separately
/// constructed methods holding the same token are equal, whatever
/// representation each uses.
pub proof fn lemma_method_eq_by_token(a: &Method, b: &Method)
    requires
        a@ == b@,
    ensures
        a.eq_spec(b),
{
}

impl AllocatedExtension {
    /// Validates `src` and stores a copy of it on the heap.
    pub fn new(src: &[u8]) -> (r: Result<AllocatedExtension, InvalidMethod>)
        requires
            src@.len() > 0,
        ensures
            r is Ok <==> is_token(src@),
            r matches Ok(a) ==> a@ == src@ && a.wf(),
    {
        match write_checked(src) {
            Ok(data) => Ok(AllocatedExtension(data)),
            Err(e) => Err(e),
        }
    }

    /// Well-formed: the stored bytes form a token.
    pub closed spec fn wf(&self) -> bool {
        is_token(self@)
    }

    /// The token as text.
    pub fn as_str(&self) -> (r: String)
        requires
            self.wf(),
        ensures
            r@ == chars_of_bytes(self@),
    {
        proof {
            lemma_tchar_ascii(self@);
        }
        string_from_ascii(self.0.as_slice())
    }
}

/// Copies `src`, failing on the first byte outside the token alphabet.
pub fn write_checked(src: &[u8]) -> (r: Result<Vec<u8>, InvalidMethod>)
    ensures
        r is Ok <==> (forall|i: int| 0 <= i < src@.len() ==> is_tchar(#[trigger] src@[i])),
        r matches Ok(v) ==> v@ == src@,
{
    let mut v: Vec<u8> = Vec::new();
    let mut i: usize = 0;
    while i < src.len()
        invariant
            0 <= i <= src@.len(),
            v@ =~= src@.take(i as int),
            forall|j: int| 0 <= j < i ==> is_tchar(#[trigger] src@[j]),
        decreases src@.len() - i,
    {
        let b = src[i];
        if !tchar(b) {
            return Err(InvalidMethod);
        }
        v.push(b);
        i = i + 1;
    }
    proof {
        assert(v@ =~= src@);
    }
    Ok(v)
}

/// Every `tchar` byte is ASCII.
pub proof fn lemma_tchar_ascii(s: Seq<u8>)
    requires
        forall|i: int| 0 <= i < s.len() ==> is_tchar(#[trigger] s[i]),
    ensures
        forall|i: int| 0 <= i < s.len() ==> #[trigger] s[i] < 128,
{
}

} // verus!
