//! HTTP status codes as the daemon's answers carry them.

use vstd::prelude::*;

verus! {

/// The text that the `Display` impl of `reqwest::StatusCode` writes for the
/// status with this code: the code in decimal, a space, and the canonical
/// reason phrase of the code (or a placeholder where it has none).
pub uninterp spec fn status_text(code: u16) -> Seq<char>;

/// The character that stands for one decimal digit.
pub open spec fn decimal_digit(d: int) -> char {
    if d == 0 {
        '0'
    } else if d == 1 {
        '1'
    } else if d == 2 {
        '2'
    } else if d == 3 {
        '3'
    } else if d == 4 {
        '4'
    } else if d == 5 {
        '5'
    } else if d == 6 {
        '6'
    } else if d == 7 {
        '7'
    } else if d == 8 {
        '8'
    } else {
        '9'
    }
}

/// The three decimal digits of a status code, most significant first.
pub open spec fn code_digits(code: u16) -> Seq<char> {
    seq![
        decimal_digit(code as int / 100),
        decimal_digit((code as int / 10) % 10),
        decimal_digit(code as int % 10),
    ]
}

/// Whether a number is a status code at all: three decimal digits, the first
/// of them not zero.
pub open spec fn is_status_code(code: u16) -> bool {
    100 <= code <= 999
}

/// Whether a status code reports success: the 2xx class.
pub open spec fn is_success_code(code: u16) -> bool {
    200 <= code < 300
}

/// The status of an HTTP response. Always holds a code in `100..=999`.
#[derive(Clone, Copy, Debug, PartialEq, Eq, Structural)]
pub struct HttpStatus {
    code: u16,
}

impl HttpStatus {
    #[verifier::type_invariant]
    spec fn in_range(self) -> bool {
        is_status_code(self.code)
    }

    /// The numeric code.
    pub closed spec fn code(self) -> u16 {
        self.code
    }

    /// Whether the value holds a status code; true of every value that
    /// executable code can hold.
    pub open spec fn wf(self) -> bool {
        is_status_code(self.code())
    }

    /// The status with the given code, if the number is a status code.
    pub fn from_u16(code: u16) -> (status: Option<HttpStatus>)
        ensures
            status.is_some() <==> is_status_code(code),
            status matches Some(s) ==> s.code() == code && s.wf(),
    {
        if 100 <= code && code <= 999 {
            Some(HttpStatus { code })
        } else {
            None
        }
    }

    /// The numeric code.
    pub fn as_u16(&self) -> (code: u16)
        ensures
            code == self.code(),
            is_status_code(code),
    {
        proof {
            use_type_invariant(self);
        }
        self.code
    }

    /// Whether the status is in the 2xx class.
    pub fn is_success(&self) -> (success: bool)
        ensures
            success == is_success_code(self.code()),
    {
        200 <= self.code && self.code < 300
    }

    /// The status as shown to the user, such as `404 Not Found`.
    pub fn text(&self) -> (text: String)
        ensures
            text@ == status_text(self.code()),
            text@.len() >= 4,
            text@.subrange(0, 3) == code_digits(self.code()),
            text@[3] == ' ',
    {
        proof {
            use_type_invariant(self);
        }
        display_text(self.code)
    }
}

/// Makes a `reqwest::StatusCode` of the code with `StatusCode::from_u16`, which
/// accepts exactly the codes in `100..=999`, and formats it with its `Display`
/// impl. Trusted: the result is the text named `status_text`; it begins with
/// the code in decimal, which for these codes is three digits, and a space.
#[verifier::external_body]
fn display_text(code: u16) -> (text: String)
    requires
        is_status_code(code),
    ensures
        text@ == status_text(code),
        text@.len() >= 4,
        text@.subrange(0, 3) == code_digits(code),
        text@[3] == ' ',
{
    match reqwest::StatusCode::from_u16(code) {
        Ok(status) => status.to_string(),
        Err(_) => String::new(),
    }
}

} // verus!
