//! HTTP status codes.

use vstd::prelude::*;

verus! {

/// How `reqwest::StatusCode` prints the status with the given number: the
/// number, a space and the reason phrase that the standard gives it, or a
/// note that it gives none.
pub uninterp spec fn status_text(code: u16) -> Seq<char>;

/// The status code of an HTTP response: a number from 100 to 999.
#[derive(Debug, Clone, Copy)]
pub struct StatusCode {
    code: u16,
}

impl View for StatusCode {
    type V = u16;

    closed spec fn view(&self) -> u16 {
        self.code
    }
}

/// `reqwest::StatusCode::from_u16` and the `Display` of the status it
/// returns. The constructor accepts exactly the numbers from 100 to 999, so
/// the call cannot fail here; the text it prints is not spelled out but
/// named, as a function of the number alone.
#[verifier::external_body]
fn render_status(code: u16) -> (r: String)
    requires
        100 <= code < 1000,
    ensures
        r@ == status_text(code),
{
    reqwest::StatusCode::from_u16(code).unwrap().to_string()
}

impl StatusCode {
    #[verifier::type_invariant]
    spec fn in_range(self) -> bool {
        100 <= self.code < 1000
    }

    /// The status with the given number, where there is one.
    pub fn from_u16(code: u16) -> (r: Option<StatusCode>)
        ensures
            r.is_some() == (100 <= code < 1000),
            r matches Some(status) ==> status@ == code,
    {
        if 100 <= code && code < 1000 {
            Some(StatusCode { code })
        } else {
            None
        }
    }

    /// The status as a number.
    pub fn as_u16(&self) -> (r: u16)
        ensures
            r == self@,
            100 <= r < 1000,
    {
        proof {
            use_type_invariant(self);
        }
        self.code
    }

    /// Whether the status reports success: a number from 200 to 299.
    pub fn is_success(&self) -> (r: bool)
        ensures
            r == (200 <= self@ < 300),
    {
        200 <= self.code && self.code < 300
    }

    /// The status as it is printed in messages.
    pub fn text(&self) -> (r: String)
        ensures
            r@ == status_text(self@),
    {
        proof {
            use_type_invariant(self);
        }
        render_status(self.code)
    }
}

} // verus!
