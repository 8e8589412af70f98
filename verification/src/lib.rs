//! Validated value types for the HTTP protocol: request methods, status
//! codes, header field values, and a UTF-8-invariant shared byte string.
//!
//! Every public constructor either proves its input well-formed or fails
//! explicitly; once constructed, a value's validity never needs rechecking.
use vstd::prelude::*;

pub mod buf;
pub mod header_value;
pub mod byte_str;
pub mod method;
pub mod status;
pub mod text;

pub use byte_str::ByteStr;
pub use byte_str::InvalidUtf8;
pub use header_value::HeaderValue;
pub use header_value::InvalidHeaderValue;
pub use header_value::ToStrError;
pub use method::Method;
pub use method::InvalidMethod;
pub use status::StatusCode;
pub use status::InvalidStatusCode;

verus! {

/// True when `b` is an HTTP `tchar` (RFC 9110 section 9.1): a letter, a
/// digit, or one of `!#$%&'*+-.^_`|~`.
pub open spec fn is_tchar(b: u8) -> bool {
    ||| b == 0x21  // '!'
    ||| 0x23 <= b <= 0x27  // '#' '$' '%' '&' '\''
    ||| b == 0x2a  // '*'
    ||| b == 0x2b  // '+'
    ||| b == 0x2d  // '-'
    ||| b == 0x2e  // '.'
    ||| 0x30 <= b <= 0x39  // digits
    ||| 0x41 <= b <= 0x5a  // uppercase letters
    ||| b == 0x5e  // '^'
    ||| b == 0x5f  // '_'
    ||| b == 0x60  // '`'
    ||| 0x61 <= b <= 0x7a  // lowercase letters
    ||| b == 0x7c  // '|'
    ||| b == 0x7e  // '~'
}

/// Executable `tchar` test, equal to [`is_tchar`].
pub fn tchar(b: u8) -> (r: bool)
    ensures
        r == is_tchar(b),
{
    b == 0x21 || (0x23 <= b && b <= 0x27) || b == 0x2a || b == 0x2b || b == 0x2d || b == 0x2e
        || (0x30 <= b && b <= 0x39) || (0x41 <= b && b <= 0x5a) || b == 0x5e || b == 0x5f
        || b == 0x60 || (0x61 <= b && b <= 0x7a) || b == 0x7c || b == 0x7e
}

} // verus!
