//! Status codes of HTTP replies.
use crate::text::decimal;
use vstd::prelude::*;

verus! {

/// Whether a number has the form of a status code: three digits, the first not zero.
pub open spec fn is_status(code: int) -> bool {
    100 <= code <= 999
}

/// Whether a status code reports success.
pub open spec fn is_success_code(code: int) -> bool {
    200 <= code < 300
}

/// The number of the status of a reply to a request that is not in order.
pub const BAD_REQUEST: u16 = 400;

/// The phrase that `reqwest::StatusCode` writes behind the number `code`.
pub uninterp spec fn status_reason(code: int) -> Seq<char>;

/// How a status is written in a message: the number, a space, and its phrase.
pub open spec fn status_text(code: int) -> Seq<char> {
    decimal(code as nat) + " "@ + status_reason(code)
}

/// The status of an HTTP reply.
#[derive(Clone, Copy, Debug, PartialEq, Eq, Structural)]
pub struct HttpStatus {
    code: u16,
}

impl HttpStatus {
    #[verifier::type_invariant]
    pub open spec fn well_formed(self) -> bool {
        is_status(self.spec_code())
    }

    /// The number of the status.
    pub closed spec fn spec_code(self) -> int {
        self.code as int
    }

    /// The status with the given number, where there is one.
    pub fn new(code: u16) -> (status: Option<HttpStatus>)
        ensures
            status is Some <==> is_status(code as int),
            status matches Some(status) ==> status.well_formed() && status.spec_code() == code,
    {
        if 100 <= code && code <= 999 {
            Some(HttpStatus { code })
        } else {
            None
        }
    }

    /// The status of a reply to a request that is not in order.
    pub fn bad_request() -> (status: HttpStatus)
        ensures
            status.well_formed(),
            status.spec_code() == BAD_REQUEST,
    {
        HttpStatus { code: BAD_REQUEST }
    }

    /// The number of the status.
    pub fn code(&self) -> (code: u16)
        ensures
            code == self.spec_code(),
            is_status(code as int),
    {
        proof {
            use_type_invariant(self);
        }
        self.code
    }

    /// Whether the status reports success.
    pub fn is_success(&self) -> (success: bool)
        ensures
            success == is_success_code(self.spec_code()),
    {
        proof {
            use_type_invariant(self);
        }
        status_is_success(self.code)
    }

    /// The status as a message shows it.
    pub fn text(&self) -> (text: String)
        ensures
            text@ == status_text(self.spec_code()),
    {
        proof {
            use_type_invariant(self);
        }
        status_display(self.code)
    }
}

/// Calls `reqwest::StatusCode::is_success`. Claimed: it holds of the codes from 200 to 299
/// and of no others.
#[verifier::external_body]
fn status_is_success(code: u16) -> (success: bool)
    requires
        is_status(code as int),
    ensures
        success == is_success_code(code as int),
{
    reqwest::StatusCode::from_u16(code).expect("the code has three digits").is_success()
}

/// Calls `to_string` on a `reqwest::StatusCode`. Claimed: the text is the number in decimal
/// notation, a space, and a phrase that depends on the number alone.
#[verifier::external_body]
fn status_display(code: u16) -> (text: String)
    requires
        is_status(code as int),
    ensures
        text@ == decimal(code as nat) + " "@ + status_reason(code as int),
{
    reqwest::StatusCode::from_u16(code).expect("the code has three digits").to_string()
}

/// Every number of three digits is a status, and nothing else is; those from 200 to 299 report
/// success, and no others do; a status is written as its number, a space and its phrase.
pub proof fn law_statuses_have_three_digits(code: int)
    ensures
        is_status(code) <==> 100 <= code < 1000,
        is_success_code(code) <==> 200 <= code <= 299,
        status_text(code) == decimal(code as nat) + " "@ + status_reason(code),
        BAD_REQUEST == 400,
{
}

} // verus!
