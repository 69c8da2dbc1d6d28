//! The status of an HTTP reply.

use vstd::prelude::*;
use vstd::string::*;

use crate::text::decimal_text;

verus! {

/// The words that `reqwest::StatusCode` shows behind the number `code`: the
/// standard reason phrase, or the phrase for a code that has none.
pub uninterp spec fn reason_phrase(code: u16) -> Seq<char>;

/// How a status is shown: its number, a space, its reason phrase.
pub open spec fn status_text(code: u16) -> Seq<char> {
    decimal_text(code as nat).push(' ') + reason_phrase(code)
}

/// The `Display` of `reqwest::StatusCode`: the number in decimal, a space and
/// the reason phrase, which depends on the number alone. A `StatusCode` exists
/// for the numbers from 100 to 999.
#[verifier::external_body]
fn show_status(code: u16) -> (r: String)
    requires
        100 <= code <= 999,
    ensures
        r@ == decimal_text(code as nat).push(' ') + reason_phrase(code),
{
    match reqwest::StatusCode::from_u16(code) {
        Ok(status) => format!("{}", status),
        Err(invalid) => format!("{}", invalid),
    }
}

/// The status of an HTTP reply, a number from 100 to 999.
#[derive(Debug, Clone, Copy)]
pub struct HttpStatus {
    code: u16,
}

impl View for HttpStatus {
    type V = u16;

    closed spec fn view(&self) -> u16 {
        self.code
    }
}

impl HttpStatus {
    #[verifier::type_invariant]
    spec fn in_range(self) -> bool {
        100 <= self.code <= 999
    }

    /// The status with this number, or `None` where no status has it.
    pub fn new(code: u16) -> (r: Option<HttpStatus>)
        ensures
            r is Some <==> 100 <= code <= 999,
            r matches Some(status) ==> status@ == code,
    {
        if 100 <= code && code <= 999 {
            Some(HttpStatus { code })
        } else {
            None
        }
    }

    /// The number.
    pub fn code(&self) -> (r: u16)
        ensures
            r == self@,
            100 <= r <= 999,
    {
        proof {
            use_type_invariant(self);
        }
        self.code
    }

    /// Whether the request was received, understood and accepted.
    pub fn is_success(&self) -> (r: bool)
        ensures
            r == success(self@),
    {
        200 <= self.code && self.code <= 299
    }

    /// The status as it is shown to the user.
    pub fn to_string(&self) -> (r: String)
        ensures
            r@ == status_text(self@),
    {
        proof {
            use_type_invariant(self);
        }
        show_status(self.code)
    }
}

/// The numbers of the statuses that accept a request.
pub open spec fn success(code: u16) -> bool {
    200 <= code <= 299
}

} // verus!
