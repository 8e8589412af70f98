//! HTTP status codes: validated 3-digit numbers in [100, 999],
//! classified by their hundreds digit and carrying an informational
//! reason phrase for registered codes.
use vstd::prelude::*;
use crate::text::chars_of_bytes;
use crate::text::string_from_ascii;

verus! {

/// An HTTP status code (`status-code` in RFC 9110 et al.).
///
/// Values in the range 100-599 are semantically classified by the most
/// significant digit. Values above 599 are unclassified but allowed for
/// legacy compatibility.
#[derive(Clone, Copy, Debug, Hash, PartialEq, Eq, Structural, PartialOrd, Ord)]
pub struct StatusCode(u16);

/// A possible error value when converting a `StatusCode` from a `u16` or
/// from bytes: the input was not a 3-digit number in [100, 999].
#[derive(Clone, Debug, PartialEq, Eq, Structural)]
pub struct InvalidStatusCode;

/// True when `s` is exactly three ASCII digits with a non-zero hundreds
/// digit: the byte strings the status constructor accepts.
pub open spec fn is_status_digits(s: Seq<u8>) -> bool {
    s.len() == 3 && 49 <= s[0] <= 57 && 48 <= s[1] <= 57 && 48 <= s[2] <= 57
}

/// The number spelt by three ASCII digit bytes.
pub open spec fn status_digits_value(s: Seq<u8>) -> int {
    (s[0] - 48) * 100 + (s[1] - 48) * 10 + (s[2] - 48)
}

/// The three ASCII digit bytes of a code in [100, 999].
pub open spec fn status_bytes(code: u16) -> Seq<u8> {
    seq![(48 + code / 100) as u8, (48 + (code / 10) % 10) as u8, (48 + code % 10) as u8]
}

/// The IANA-registered reason phrase of a recognised code. The phrase is
/// informational only; protocol logic must never depend on its content.
pub open spec fn spec_canonical_reason(code: u16) -> Option<Seq<char>> {
    if code == 100 {
        Some("Continue"@)
    } else if code == 101 {
        Some("Switching Protocols"@)
    } else if code == 102 {
        Some("Processing"@)
    } else if code == 200 {
        Some("OK"@)
    } else if code == 201 {
        Some("Created"@)
    } else if code == 202 {
        Some("Accepted"@)
    } else if code == 203 {
        Some("Non Authoritative Information"@)
    } else if code == 204 {
        Some("No Content"@)
    } else if code == 205 {
        Some("Reset Content"@)
    } else if code == 206 {
        Some("Partial Content"@)
    } else if code == 207 {
        Some("Multi-Status"@)
    } else if code == 208 {
        Some("Already Reported"@)
    } else if code == 226 {
        Some("IM Used"@)
    } else if code == 300 {
        Some("Multiple Choices"@)
    } else if code == 301 {
        Some("Moved Permanently"@)
    } else if code == 302 {
        Some("Found"@)
    } else if code == 303 {
        Some("See Other"@)
    } else if code == 304 {
        Some("Not Modified"@)
    } else if code == 305 {
        Some("Use Proxy"@)
    } else if code == 307 {
        Some("Temporary Redirect"@)
    } else if code == 308 {
        Some("Permanent Redirect"@)
    } else if code == 400 {
        Some("Bad Request"@)
    } else if code == 401 {
        Some("Unauthorized"@)
    } else if code == 402 {
        Some("Payment Required"@)
    } else if code == 403 {
        Some("Forbidden"@)
    } else if code == 404 {
        Some("Not Found"@)
    } else if code == 405 {
        Some("Method Not Allowed"@)
    } else if code == 406 {
        Some("Not Acceptable"@)
    } else if code == 407 {
        Some("Proxy Authentication Required"@)
    } else if code == 408 {
        Some("Request Timeout"@)
    } else if code == 409 {
        Some("Conflict"@)
    } else if code == 410 {
        Some("Gone"@)
    } else if code == 411 {
        Some("Length Required"@)
    } else if code == 412 {
        Some("Precondition Failed"@)
    } else if code == 413 {
        Some("Payload Too Large"@)
    } else if code == 414 {
        Some("URI Too Long"@)
    } else if code == 415 {
        Some("Unsupported Media Type"@)
    } else if code == 416 {
        Some("Range Not Satisfiable"@)
    } else if code == 417 {
        Some("Expectation Failed"@)
    } else if code == 418 {
        Some("I'm a teapot"@)
    } else if code == 421 {
        Some("Misdirected Request"@)
    } else if code == 422 {
        Some("Unprocessable Entity"@)
    } else if code == 423 {
        Some("Locked"@)
    } else if code == 424 {
        Some("Failed Dependency"@)
    } else if code == 425 {
        Some("Too Early"@)
    } else if code == 426 {
        Some("Upgrade Required"@)
    } else if code == 428 {
        Some("Precondition Required"@)
    } else if code == 429 {
        Some("Too Many Requests"@)
    } else if code == 431 {
        Some("Request Header Fields Too Large"@)
    } else if code == 451 {
        Some("Unavailable For Legal Reasons"@)
    } else if code == 500 {
        Some("Internal Server Error"@)
    } else if code == 501 {
        Some("Not Implemented"@)
    } else if code == 502 {
        Some("Bad Gateway"@)
    } else if code == 503 {
        Some("Service Unavailable"@)
    } else if code == 504 {
        Some("Gateway Timeout"@)
    } else if code == 505 {
        Some("HTTP Version Not Supported"@)
    } else if code == 506 {
        Some("Variant Also Negotiates"@)
    } else if code == 507 {
        Some("Insufficient Storage"@)
    } else if code == 508 {
        Some("Loop Detected"@)
    } else if code == 510 {
        Some("Not Extended"@)
    } else if code == 511 {
        Some("Network Authentication Required"@)
    } else {
        None
    }
}

impl StatusCode {
    /// The numeric value of the code.
    pub closed spec fn code(&self) -> u16 {
        self.0
    }

    /// Well-formed: within the supported range [100, 999].
    pub open spec fn wf(&self) -> bool {
        100 <= self.code() <= 999
    }

    /// The 200 OK status code, the default.
    #[must_use]
    pub fn new() -> (r: StatusCode)
        ensures
            r.code() == 200 && r.wf(),
    {
        StatusCode(200)
    }

    /// The 200 OK status code.
    #[must_use]
    pub fn ok() -> (r: StatusCode)
        ensures
            r.code() == 200 && r.wf(),
    {
        StatusCode(200)
    }

    /// Converts a u16 to a status code, failing outside [100, 999].
    pub fn from_u16(src: u16) -> (r: Result<StatusCode, InvalidStatusCode>)
        ensures
            r is Ok <==> 100 <= src <= 999,
            r matches Ok(c) ==> c.code() == src && c.wf(),
    {
        if src < 100 || src >= 1000 {
            return Err(InvalidStatusCode);
        }
        Ok(StatusCode(src))
    }

    /// Converts three ASCII digit bytes to a status code. A leading zero
    /// in the hundreds digit, a non-digit byte, or any other length is
    /// rejected.
    pub fn from_bytes(src: &[u8]) -> (r: Result<StatusCode, InvalidStatusCode>)
        ensures
            r is Ok <==> is_status_digits(src@),
            r matches Ok(c) ==> c.code() == status_digits_value(src@) && c.wf(),
    {
        if src.len() != 3 {
            return Err(InvalidStatusCode);
        }
        let a = src[0];
        let b = src[1];
        let c = src[2];
        if a < 49 || a > 57 || b < 48 || b > 57 || c < 48 || c > 57 {
            return Err(InvalidStatusCode);
        }
        let status: u16 = (a - 48) as u16 * 100 + (b - 48) as u16 * 10 + (c - 48) as u16;
        Ok(StatusCode(status))
    }

    /// Returns the `u16` corresponding to this `StatusCode`.
    #[must_use]
    pub fn as_u16(&self) -> (r: u16)
        ensures
            r == self.code(),
    {
        self.0
    }

    /// Returns the three-digit decimal form of the `StatusCode`. The
    /// canonical reason is not included.
    #[must_use]
    pub fn as_str(&self) -> (r: String)
        requires
            self.wf(),
        ensures
            r@ == chars_of_bytes(status_bytes(self.code())),
    {
        let code = self.0;
        let mut v: Vec<u8> = Vec::new();
        v.push((48 + code / 100) as u8);
        v.push((48 + (code / 10) % 10) as u8);
        v.push((48 + code % 10) as u8);
        proof {
            assert(v@ =~= status_bytes(self.code()));
        }
        string_from_ascii(v.as_slice())
    }

    /// Get the standardised `reason-phrase` for this status code, where
    /// one is registered. The phrase is meant exclusively for human
    /// readers; no meaning should be derived from it.
    #[must_use]
    pub fn canonical_reason(&self) -> (r: Option<&'static str>)
        ensures
            r is Some <==> spec_canonical_reason(self.code()) is Some,
            r matches Some(p) ==> spec_canonical_reason(self.code()) == Some(p@),
    {
        match self.0 {
            100 => Some("Continue"),
            101 => Some("Switching Protocols"),
            102 => Some("Processing"),
            200 => Some("OK"),
            201 => Some("Created"),
            202 => Some("Accepted"),
            203 => Some("Non Authoritative Information"),
            204 => Some("No Content"),
            205 => Some("Reset Content"),
            206 => Some("Partial Content"),
            207 => Some("Multi-Status"),
            208 => Some("Already Reported"),
            226 => Some("IM Used"),
            300 => Some("Multiple Choices"),
            301 => Some("Moved Permanently"),
            302 => Some("Found"),
            303 => Some("See Other"),
            304 => Some("Not Modified"),
            305 => Some("Use Proxy"),
            307 => Some("Temporary Redirect"),
            308 => Some("Permanent Redirect"),
            400 => Some("Bad Request"),
            401 => Some("Unauthorized"),
            402 => Some("Payment Required"),
            403 => Some("Forbidden"),
            404 => Some("Not Found"),
            405 => Some("Method Not Allowed"),
            406 => Some("Not Acceptable"),
            407 => Some("Proxy Authentication Required"),
            408 => Some("Request Timeout"),
            409 => Some("Conflict"),
            410 => Some("Gone"),
            411 => Some("Length Required"),
            412 => Some("Precondition Failed"),
            413 => Some("Payload Too Large"),
            414 => Some("URI Too Long"),
            415 => Some("Unsupported Media Type"),
            416 => Some("Range Not Satisfiable"),
            417 => Some("Expectation Failed"),
            418 => Some("I'm a teapot"),
            421 => Some("Misdirected Request"),
            422 => Some("Unprocessable Entity"),
            423 => Some("Locked"),
            424 => Some("Failed Dependency"),
            425 => Some("Too Early"),
            426 => Some("Upgrade Required"),
            428 => Some("Precondition Required"),
            429 => Some("Too Many Requests"),
            431 => Some("Request Header Fields Too Large"),
            451 => Some("Unavailable For Legal Reasons"),
            500 => Some("Internal Server Error"),
            501 => Some("Not Implemented"),
            502 => Some("Bad Gateway"),
            503 => Some("Service Unavailable"),
            504 => Some("Gateway Timeout"),
            505 => Some("HTTP Version Not Supported"),
            506 => Some("Variant Also Negotiates"),
            507 => Some("Insufficient Storage"),
            508 => Some("Loop Detected"),
            510 => Some("Not Extended"),
            511 => Some("Network Authentication Required"),
            _ => None,
        }
    }

    /// Check if status is within 100-199.
    #[must_use]
    pub fn is_informational(&self) -> (r: bool)
        ensures
            r == (100 <= self.code() < 200),
    {
        100 <= self.0 && self.0 < 200
    }

    /// Check if status is within 200-299.
    #[must_use]
    pub fn is_success(&self) -> (r: bool)
        ensures
            r == (200 <= self.code() < 300),
    {
        200 <= self.0 && self.0 < 300
    }

    /// Check if status is within 300-399.
    #[must_use]
    pub fn is_redirection(&self) -> (r: bool)
        ensures
            r == (300 <= self.code() < 400),
    {
        300 <= self.0 && self.0 < 400
    }

    /// Check if status is within 400-499.
    #[must_use]
    pub fn is_client_error(&self) -> (r: bool)
        ensures
            r == (400 <= self.code() < 500),
    {
        400 <= self.0 && self.0 < 500
    }

    /// Check if status is within 500-599.
    #[must_use]
    pub fn is_server_error(&self) -> (r: bool)
        ensures
            r == (500 <= self.code() < 600),
    {
        500 <= self.0 && self.0 < 600
    }

    /// Formats the status code, *including* the canonical reason, as
    /// `<code> <reason>`, with a placeholder for unregistered codes.
    #[must_use]
    pub fn to_display_string(&self) -> (r: String)
        requires
            self.wf(),
        ensures
            r@ == chars_of_bytes(status_bytes(self.code())) + seq![' '] + (
            match spec_canonical_reason(self.code()) {
                Some(p) => p,
                None => "<unknown status code>"@,
            }),
    {
        let mut s = self.as_str();
        proof {
            reveal_strlit(" ");
            assert(" "@ =~= seq![' ']);
        }
        s.append(" ");
        match self.canonical_reason() {
            Some(p) => {
                s.append(p);
            },
            None => {
                s.append("<unknown status code>");
            },
        }
        s
    }
}

impl Default for StatusCode {
    /// The default status code is 200 OK.
    fn default() -> (r: StatusCode)
        ensures
            r.code() == 200 && r.wf(),
    {
        StatusCode(200)
    }
}

} // verus!
