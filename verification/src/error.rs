//! The ways a call can fail.

use vstd::prelude::*;
use vstd::std_specs::convert::FromSpecImpl;

verus! {

/// `hyper::http::Error`, carried as it comes.
#[verifier::external_type_specification]
#[verifier::external_body]
pub struct ExHttpError(hyper::http::Error);

/// `hyper::Error`, carried as it comes.
#[verifier::external_type_specification]
#[verifier::external_body]
pub struct ExHyperError(hyper::Error);

/// `serde_json::Error`, carried as it comes.
#[verifier::external_type_specification]
#[verifier::external_body]
pub struct ExJsonError(serde_json::Error);

/// Why a call failed.
#[derive(Debug)]
pub enum ApiError {
    /// The request could not be built: the URL or a header was malformed.
    HttpError(hyper::http::Error),
    /// The transport failed while the request was sent or the response read.
    InternalError(hyper::Error),
    /// The response body is not JSON, or not of the expected shape.
    ParseError(serde_json::Error),
    /// The response is well-formed but holds a resource of another kind than
    /// the one asked for.
    ResourceMismatchError,
}

/// The kind of an [`ApiError`], without what it carries.
#[derive(Debug, Clone, Copy, PartialEq, Eq, Structural)]
pub enum ErrorKind {
    Http,
    Internal,
    Parse,
    ResourceMismatch,
}

impl ApiError {
    /// The kind of this error.
    pub open spec fn spec_kind(&self) -> ErrorKind {
        match self {
            ApiError::HttpError(_) => ErrorKind::Http,
            ApiError::InternalError(_) => ErrorKind::Internal,
            ApiError::ParseError(_) => ErrorKind::Parse,
            ApiError::ResourceMismatchError => ErrorKind::ResourceMismatch,
        }
    }

    /// The kind of this error.
    #[verifier::when_used_as_spec(spec_kind)]
    pub fn kind(&self) -> (res: ErrorKind)
        ensures
            res == self.spec_kind(),
    {
        match self {
            ApiError::HttpError(_) => ErrorKind::Http,
            ApiError::InternalError(_) => ErrorKind::Internal,
            ApiError::ParseError(_) => ErrorKind::Parse,
            ApiError::ResourceMismatchError => ErrorKind::ResourceMismatch,
        }
    }
}

impl From<hyper::http::Error> for ApiError {
    fn from(e: hyper::http::Error) -> (res: ApiError) {
        ApiError::HttpError(e)
    }
}

impl FromSpecImpl<hyper::http::Error> for ApiError {
    open spec fn obeys_from_spec() -> bool {
        true
    }

    open spec fn from_spec(e: hyper::http::Error) -> ApiError {
        ApiError::HttpError(e)
    }
}

impl From<hyper::Error> for ApiError {
    fn from(e: hyper::Error) -> (res: ApiError) {
        ApiError::InternalError(e)
    }
}

impl FromSpecImpl<hyper::Error> for ApiError {
    open spec fn obeys_from_spec() -> bool {
        true
    }

    open spec fn from_spec(e: hyper::Error) -> ApiError {
        ApiError::InternalError(e)
    }
}

impl From<serde_json::Error> for ApiError {
    fn from(e: serde_json::Error) -> (res: ApiError) {
        ApiError::ParseError(e)
    }
}

impl FromSpecImpl<serde_json::Error> for ApiError {
    open spec fn obeys_from_spec() -> bool {
        true
    }

    open spec fn from_spec(e: serde_json::Error) -> ApiError {
        ApiError::ParseError(e)
    }
}

} // verus!
