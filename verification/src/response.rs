//! The response envelope shared by every endpoint.
//!
//! A decoded body is either a typed success payload or a typed API error.
//! The wire encoding is untagged: which variant applies is inferred from
//! which fields are present.  [`HelixResponse::classify`] and
//! [`OAuthResponse::classify`] make that inference from the fields a body
//! surfaced; a body that fits neither shape is a malformed-body failure,
//! distinct from a well-formed API error.

pub mod pagination;

pub use pagination::Pagination;

use vstd::prelude::*;

verus! {

/// A decoded Helix body: the typed payload wrapped in a `data` field, or
/// an API error.
#[derive(Clone, PartialEq, Eq, Debug)]
pub enum HelixResponse<T> {
    /// A success payload with optional pagination.
    Success(ResponseData<T>),
    /// A well-formed API error.
    Failure(ResponseError),
}

/// A decoded OAuth body: the bare typed payload, or an API error.
#[derive(Clone, PartialEq, Eq, Debug)]
pub enum OAuthResponse<T> {
    /// The bare success payload.
    Success(T),
    /// A well-formed API error.
    Failure(ResponseError),
}

/// The success wrapper of a Helix body: the payload under `data`, and
/// pagination when the endpoint may search further.
#[derive(Clone, PartialEq, Eq, Debug)]
pub struct ResponseData<T> {
    /// The actual payload.
    pub data: T,
    /// Pagination, absent when unpaginated or on the last page.
    pub pagination: Option<Pagination>,
}

/// A well-formed API error: a status and message, and optionally a further
/// error kind.
#[derive(Clone, PartialEq, Eq, Debug)]
pub struct ResponseError {
    /// The optional error kind.
    pub error: Option<String>,
    /// The numeric status.
    pub status: usize,
    /// The human-readable message.
    pub message: String,
}

/// The fields a Helix body surfaced, before the envelope decision: the
/// typed payload if a well-typed `data` field was present, and each
/// error-shape field that was present.
pub struct RawHelixBody<T> {
    /// The payload, when a `data` field of the expected type was present.
    pub data: Option<T>,
    /// The `pagination` field, when present.
    pub pagination: Option<Pagination>,
    /// The `status` field, when present.
    pub status: Option<usize>,
    /// The `message` field, when present.
    pub message: Option<String>,
    /// The `error` field, when present.
    pub error: Option<String>,
}

/// The fields an OAuth body surfaced: the bare typed payload if the body
/// was of the expected type, and each error-shape field that was present.
pub struct RawOAuthBody<T> {
    /// The payload, when the body itself was of the expected type.
    pub value: Option<T>,
    /// The `status` field, when present.
    pub status: Option<usize>,
    /// The `message` field, when present.
    pub message: Option<String>,
    /// The `error` field, when present.
    pub error: Option<String>,
}

/// A body that fits neither the success shape nor the error shape.
#[derive(Clone, Copy, PartialEq, Eq, Debug)]
pub struct MalformedBody;

/// The envelope decision for a Helix body: the success shape wins when its
/// `data` payload is present, the error shape needs both `status` and
/// `message`, and anything else is malformed.
pub open spec fn classify_helix_spec<T>(raw: RawHelixBody<T>) -> Result<
    HelixResponse<T>,
    MalformedBody,
> {
    if raw.data is Some {
        Ok(
            HelixResponse::Success(
                ResponseData { data: raw.data.unwrap(), pagination: raw.pagination },
            ),
        )
    } else if raw.status is Some && raw.message is Some {
        Ok(
            HelixResponse::Failure(
                ResponseError {
                    error: raw.error,
                    status: raw.status.unwrap(),
                    message: raw.message.unwrap(),
                },
            ),
        )
    } else {
        Err(MalformedBody)
    }
}

/// The envelope decision for an OAuth body: the bare payload wins when
/// present, the error shape needs both `status` and `message`, and
/// anything else is malformed.
pub open spec fn classify_oauth_spec<T>(raw: RawOAuthBody<T>) -> Result<
    OAuthResponse<T>,
    MalformedBody,
> {
    if raw.value is Some {
        Ok(OAuthResponse::Success(raw.value.unwrap()))
    } else if raw.status is Some && raw.message is Some {
        Ok(
            OAuthResponse::Failure(
                ResponseError {
                    error: raw.error,
                    status: raw.status.unwrap(),
                    message: raw.message.unwrap(),
                },
            ),
        )
    } else {
        Err(MalformedBody)
    }
}

impl<T> HelixResponse<T> {
    /// Turns this response into a `Result`.
    pub fn into_result(self) -> (r: Result<ResponseData<T>, ResponseError>)
        ensures
            (self matches HelixResponse::Success(d) ==> r == Ok::<ResponseData<T>, ResponseError>(d)),
            (self matches HelixResponse::Failure(e) ==> r == Err::<ResponseData<T>, ResponseError>(e)),
    {
        match self {
            Self::Success(ok) => Ok(ok),
            Self::Failure(err) => Err(err),
        }
    }

    /// The envelope decision over the fields a body surfaced.
    pub fn classify(raw: RawHelixBody<T>) -> (r: Result<HelixResponse<T>, MalformedBody>)
        ensures
            r == classify_helix_spec(raw),
    {
        match raw.data {
            Some(data) => Ok(HelixResponse::Success(ResponseData { data, pagination: raw.pagination })),
            None => match (raw.status, raw.message) {
                (Some(status), Some(message)) => Ok(
                    HelixResponse::Failure(ResponseError { error: raw.error, status, message }),
                ),
                _ => Err(MalformedBody),
            },
        }
    }
}

impl<T> OAuthResponse<T> {
    /// Turns this response into a `Result`.
    pub fn into_result(self) -> (r: Result<T, ResponseError>)
        ensures
            (self matches OAuthResponse::Success(v) ==> r == Ok::<T, ResponseError>(v)),
            (self matches OAuthResponse::Failure(e) ==> r == Err::<T, ResponseError>(e)),
    {
        match self {
            Self::Success(ok) => Ok(ok),
            Self::Failure(err) => Err(err),
        }
    }

    /// The envelope decision over the fields a body surfaced.
    pub fn classify(raw: RawOAuthBody<T>) -> (r: Result<OAuthResponse<T>, MalformedBody>)
        ensures
            r == classify_oauth_spec(raw),
    {
        match raw.value {
            Some(value) => Ok(OAuthResponse::Success(value)),
            None => match (raw.status, raw.message) {
                (Some(status), Some(message)) => Ok(
                    OAuthResponse::Failure(ResponseError { error: raw.error, status, message }),
                ),
                _ => Err(MalformedBody),
            },
        }
    }
}

/// Law: a body carrying a `data` payload and no `pagination` field
/// classifies as success with no cursor.
pub proof fn lemma_success_body_round_trip<T>(raw: RawHelixBody<T>)
    requires
        raw.data is Some,
        raw.pagination is None,
    ensures
        classify_helix_spec(raw) == Ok::<HelixResponse<T>, MalformedBody>(
            HelixResponse::Success(
                (ResponseData { data: raw.data.unwrap(), pagination: None::<Pagination> }),
            ),
        ),
{
}

/// Law: a body shaped as `{status, message}` alone classifies as the API
/// error with those fields and no error kind.
pub proof fn lemma_error_body_round_trip<T>(raw: RawHelixBody<T>)
    requires
        raw.data is None,
        raw.status is Some,
        raw.message is Some,
        raw.error is None,
    ensures
        classify_helix_spec(raw) == Ok::<HelixResponse<T>, MalformedBody>(
            HelixResponse::Failure(
                (ResponseError {
                    error: None::<String>,
                    status: raw.status.unwrap(),
                    message: raw.message.unwrap(),
                }),
            ),
        ),
{
}

} // verus!
