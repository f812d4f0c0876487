//! Failures of the HTTP client and of the environment, as plain data: what is
//! shown of them, and what is asked of them.

use vstd::prelude::*;

verus! {

/// A failure of the HTTP client.
#[derive(Debug)]
pub struct HttpError {
    /// The connection could not be made.
    pub connect: bool,
    /// A time limit expired.
    pub timeout: bool,
    /// The request could not be sent.
    pub request: bool,
    /// The text that is shown to the user.
    pub message: String,
}

impl HttpError {
    /// `self` holds what `error` answers, and the text that it shows.
    pub open spec fn describes(self, error: reqwest::Error) -> bool {
        &&& self.connect == crate::outside::is_connect(error)
        &&& self.timeout == crate::outside::is_timeout(error)
        &&& self.request == crate::outside::is_request(error)
        &&& vstd::string::to_string_from_display_ensures(&error, self.message)
    }
}

// What `from` returns is stated by its own `ensures`.
impl vstd::std_specs::convert::FromSpecImpl<reqwest::Error> for HttpError {
    open spec fn obeys_from_spec() -> bool {
        false
    }

    open spec fn from_spec(v: reqwest::Error) -> HttpError {
        arbitrary()
    }
}

impl From<reqwest::Error> for HttpError {
    /// What `value` answers and shows.
    fn from(value: reqwest::Error) -> (error: HttpError)
        ensures
            error.describes(value),
    {
        HttpError {
            connect: value.is_connect(),
            timeout: value.is_timeout(),
            request: value.is_request(),
            message: value.to_string(),
        }
    }
}

/// An environment variable that could not be read.
#[derive(Debug)]
pub struct EnvVarError {
    /// The text that is shown to the user.
    pub message: String,
}

} // verus!
