//! The library's error type, over the transport crates' own errors.
use vstd::prelude::*;

verus! {

#[verifier::external_type_specification]
#[verifier::external_body]
pub struct ExHyperError(hyper::Error);

#[verifier::external_type_specification]
#[verifier::external_body]
pub struct ExHttpError(http::Error);

#[verifier::external_type_specification]
#[verifier::external_body]
pub struct ExReqwestError(reqwest::Error);

#[verifier::external_type_specification]
#[verifier::external_body]
pub struct ExInvalidUri(http::uri::InvalidUri);

/// A failure in one of the three transport domains: the HTTP server and
/// client, HTTP values (a URI that cannot be built), the Market client.
#[derive(Debug)]
pub enum ServiceError {
    Hyper(hyper::Error),
    Http(http::Error),
    Reqwest(reqwest::Error),
}

impl ServiceError {
    /// The underlying error's message.
    pub fn message(&self) -> String {
        match self {
            ServiceError::Hyper(e) => e.to_string(),
            ServiceError::Http(e) => e.to_string(),
            ServiceError::Reqwest(e) => e.to_string(),
        }
    }
}

impl From<hyper::Error> for ServiceError {
    fn from(e: hyper::Error) -> ServiceError {
        ServiceError::Hyper(e)
    }
}

impl vstd::std_specs::convert::FromSpecImpl<hyper::Error> for ServiceError {
    open spec fn obeys_from_spec() -> bool {
        true
    }

    open spec fn from_spec(e: hyper::Error) -> ServiceError {
        ServiceError::Hyper(e)
    }
}

impl From<http::Error> for ServiceError {
    fn from(e: http::Error) -> ServiceError {
        ServiceError::Http(e)
    }
}

impl vstd::std_specs::convert::FromSpecImpl<http::Error> for ServiceError {
    open spec fn obeys_from_spec() -> bool {
        true
    }

    open spec fn from_spec(e: http::Error) -> ServiceError {
        ServiceError::Http(e)
    }
}

impl From<reqwest::Error> for ServiceError {
    fn from(e: reqwest::Error) -> ServiceError {
        ServiceError::Reqwest(e)
    }
}

impl vstd::std_specs::convert::FromSpecImpl<reqwest::Error> for ServiceError {
    open spec fn obeys_from_spec() -> bool {
        true
    }

    open spec fn from_spec(e: reqwest::Error) -> ServiceError {
        ServiceError::Reqwest(e)
    }
}

/// Relies on http's `From<InvalidUri> for http::Error`: it wraps the URI error.
#[verifier::external_body]
pub(crate) fn uri_error(e: http::uri::InvalidUri) -> http::Error {
    http::Error::from(e)
}

} // verus!
