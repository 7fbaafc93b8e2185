//! Failures as the API answers them: a status code and a JSON body with an
//! `error` text.

use vstd::prelude::*;

use crate::data_store::error::{DataStoreError, StoreFailure};

verus! {

/// A failure of a request to the API.
pub enum ApiError {
    IncorrectQuery,
    QueryResultIsEmpty,
    UnexpectedError(String),
}

/// The mathematical model of an `ApiError`.
pub enum ApiFailure {
    IncorrectQuery,
    QueryResultIsEmpty,
    Unexpected(Seq<char>),
}

impl View for ApiError {
    type V = ApiFailure;

    open spec fn view(&self) -> ApiFailure {
        match self {
            ApiError::IncorrectQuery => ApiFailure::IncorrectQuery,
            ApiError::QueryResultIsEmpty => ApiFailure::QueryResultIsEmpty,
            ApiError::UnexpectedError(detail) => ApiFailure::Unexpected(detail@),
        }
    }
}

/// The body of a failure answer.
pub struct ErrorResponse {
    pub error: String,
}

/// The API failure that a store failure becomes: the same kind, with the
/// same detail.
pub open spec fn api_failure_of(f: StoreFailure) -> ApiFailure {
    match f {
        StoreFailure::IncorrectQuery => ApiFailure::IncorrectQuery,
        StoreFailure::QueryResultIsEmpty => ApiFailure::QueryResultIsEmpty,
        StoreFailure::Unexpected(d) => ApiFailure::Unexpected(d),
    }
}

impl ApiFailure {
    /// The HTTP status of the answer.
    pub open spec fn status(self) -> u16 {
        match self {
            ApiFailure::IncorrectQuery => 400,
            ApiFailure::QueryResultIsEmpty => 404,
            ApiFailure::Unexpected(_) => 500,
        }
    }

    /// The `error` text of the answer's body; it never shows the detail of
    /// an unexpected failure.
    pub open spec fn client_message(self) -> Seq<char> {
        match self {
            ApiFailure::IncorrectQuery => "Incorrect query"@,
            ApiFailure::QueryResultIsEmpty => "Not found"@,
            ApiFailure::Unexpected(_) => "Unexpected error"@,
        }
    }

    /// The text that names the failure.
    pub open spec fn description(self) -> Seq<char> {
        match self {
            ApiFailure::IncorrectQuery => "Incorrect query"@,
            ApiFailure::QueryResultIsEmpty => "Query result is empty"@,
            ApiFailure::Unexpected(_) => "Unexpected error"@,
        }
    }
}

impl ApiError {
    /// The API failure for a store failure.
    pub fn from_data_store(e: DataStoreError) -> (r: ApiError)
        ensures
            r@ == api_failure_of(e@),
    {
        match e {
            DataStoreError::IncorrectQuery => ApiError::IncorrectQuery,
            DataStoreError::QueryResultIsEmpty => ApiError::QueryResultIsEmpty,
            DataStoreError::UnexpectedError(d) => ApiError::UnexpectedError(d),
        }
    }

    /// The HTTP status of the answer.
    pub fn status(&self) -> (code: u16)
        ensures
            code == self@.status(),
    {
        match self {
            ApiError::IncorrectQuery => 400,
            ApiError::QueryResultIsEmpty => 404,
            ApiError::UnexpectedError(_) => 500,
        }
    }

    /// The body of the answer.
    pub fn error_response(&self) -> (body: ErrorResponse)
        ensures
            body.error@ == self@.client_message(),
    {
        let text = match self {
            ApiError::IncorrectQuery => "Incorrect query",
            ApiError::QueryResultIsEmpty => "Not found",
            ApiError::UnexpectedError(_) => "Unexpected error",
        };
        ErrorResponse { error: String::from_str(text) }
    }

    /// The status and body of the answer to this failure.
    pub fn into_response(self) -> (answer: (u16, ErrorResponse))
        ensures
            answer.0 == self@.status(),
            answer.1.error@ == self@.client_message(),
    {
        (self.status(), self.error_response())
    }

    /// The text that names the failure.
    pub fn description(&self) -> (s: String)
        ensures
            s@ == self@.description(),
    {
        match self {
            ApiError::IncorrectQuery => String::from_str("Incorrect query"),
            ApiError::QueryResultIsEmpty => String::from_str("Query result is empty"),
            ApiError::UnexpectedError(_) => String::from_str("Unexpected error"),
        }
    }
}

} // verus!
