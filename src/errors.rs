use vstd::prelude::*;

verus! {

/// Declares `reqwest::Error`, the transport's error, so that `ClientError` can
/// carry it. Nothing is assumed of it: the library only moves it along.
#[verifier::external_type_specification]
#[verifier::external_body]
pub struct ExReqwestError(reqwest::Error);

/// The details of an error response.
#[derive(Debug)]
pub struct ApiError {
    pub message: String,
    pub code: usize,
}

/// The root response body for an error.
#[derive(Debug)]
pub struct ErrorEnvelope {
    pub error: ApiError,
}

/// The error kinds a request can end in.
#[derive(Debug)]
pub enum ClientError {
    /// The request was unacceptable, often due to an incorrect query string parameter.
    BadRequest(ErrorEnvelope),
    /// The parameters were valid but the request failed.
    RequestFailed(ErrorEnvelope),
    /// The user doesn't have permissions to perform the request.
    Forbidden(ErrorEnvelope),
    /// The requested resource doesn't exist.
    NotFound(ErrorEnvelope),
    /// The rate limit has been exceeded.
    TooManyRequests(ErrorEnvelope),
    /// Something went wrong on the server's end.
    ServerError(ErrorEnvelope),
    /// The response body could not be decoded into an envelope.
    DecodeFailed(reqwest::Error),
    /// The transport failed before any body was available.
    RequestError(reqwest::Error),
}

/// The classified error for an API failure envelope, chosen by its code.
pub open spec fn classify(e: ErrorEnvelope) -> ClientError {
    let code = e.error.code;
    if code == 400 {
        ClientError::BadRequest(e)
    } else if code == 402 {
        ClientError::RequestFailed(e)
    } else if code == 403 {
        ClientError::Forbidden(e)
    } else if code == 404 {
        ClientError::NotFound(e)
    } else if code == 429 {
        ClientError::TooManyRequests(e)
    } else if 500 <= code <= 504 {
        ClientError::ServerError(e)
    } else {
        ClientError::BadRequest(e)
    }
}

impl From<ErrorEnvelope> for ClientError {
    fn from(e: ErrorEnvelope) -> (r: ClientError)
        ensures
            r == classify(e),
    {
        match e.error.code {
            400 => ClientError::BadRequest(e),
            402 => ClientError::RequestFailed(e),
            403 => ClientError::Forbidden(e),
            404 => ClientError::NotFound(e),
            429 => ClientError::TooManyRequests(e),
            500..=504 => ClientError::ServerError(e),
            _ => ClientError::BadRequest(e),
        }
    }
}

impl vstd::std_specs::convert::FromSpecImpl<ErrorEnvelope> for ClientError {
    open spec fn obeys_from_spec() -> bool {
        true
    }

    open spec fn from_spec(e: ErrorEnvelope) -> ClientError {
        classify(e)
    }
}

impl From<reqwest::Error> for ClientError {
    fn from(e: reqwest::Error) -> (r: ClientError)
        ensures
            r == ClientError::RequestError(e),
    {
        ClientError::RequestError(e)
    }
}

impl vstd::std_specs::convert::FromSpecImpl<reqwest::Error> for ClientError {
    open spec fn obeys_from_spec() -> bool {
        true
    }

    open spec fn from_spec(e: reqwest::Error) -> ClientError {
        ClientError::RequestError(e)
    }
}

} // verus!
