//! HTTP status codes.

use vstd::prelude::*;

verus! {

/// An HTTP status code: a number of three digits, the first of which is not
/// zero. Codes that no standard names are status codes too.
#[derive(Clone, Copy, Debug, PartialEq, Eq)]
pub struct HttpStatus {
    code: u16,
}

impl View for HttpStatus {
    type V = u16;

    closed spec fn view(&self) -> u16 {
        self.code
    }
}

impl HttpStatus {
    /// A status code has three digits.
    #[verifier::type_invariant]
    spec fn has_three_digits(self) -> bool {
        100 <= self.code <= 999
    }

    /// The status code with the number `code`, if there is one.
    pub fn from_u16(code: u16) -> (status: Option<HttpStatus>)
        ensures
            status is Some <==> 100 <= code <= 999,
            status matches Some(s) ==> s@ == code,
    {
        if 100 <= code && code <= 999 {
            Some(HttpStatus { code })
        } else {
            None
        }
    }

    /// The number of the status code.
    #[must_use]
    pub fn as_u16(&self) -> (code: u16)
        ensures
            code == self@,
            100 <= code <= 999,
    {
        proof {
            use_type_invariant(self);
        }
        self.code
    }
}

// What `from` returns is stated by its own `ensures`, over the view.
impl vstd::std_specs::convert::FromSpecImpl<reqwest::StatusCode> for HttpStatus {
    open spec fn obeys_from_spec() -> bool {
        false
    }

    open spec fn from_spec(v: reqwest::StatusCode) -> HttpStatus {
        arbitrary()
    }
}

impl From<reqwest::StatusCode> for HttpStatus {
    /// The status code with the number of `value`.
    fn from(value: reqwest::StatusCode) -> (status: HttpStatus)
        ensures
            status@ == crate::outside::status_number(value),
    {
        HttpStatus { code: value.as_u16() }
    }
}

} // verus!
