//! Failures of the data store.

use vstd::prelude::*;

verus! {

/// What went wrong while reading the table or the files it lists.
pub enum DataStoreError {
    /// The query was refused.
    IncorrectQuery,
    /// The query ran and selected no row.
    QueryResultIsEmpty,
    /// The engine, the object store or a transfer failed; the text says how.
    UnexpectedError(String),
}

/// The mathematical model of a `DataStoreError`.
pub enum StoreFailure {
    IncorrectQuery,
    QueryResultIsEmpty,
    Unexpected(Seq<char>),
}

impl View for DataStoreError {
    type V = StoreFailure;

    open spec fn view(&self) -> StoreFailure {
        match self {
            DataStoreError::IncorrectQuery => StoreFailure::IncorrectQuery,
            DataStoreError::QueryResultIsEmpty => StoreFailure::QueryResultIsEmpty,
            DataStoreError::UnexpectedError(detail) => StoreFailure::Unexpected(detail@),
        }
    }
}

impl StoreFailure {
    /// The text that names the failure.
    pub open spec fn description(self) -> Seq<char> {
        match self {
            StoreFailure::IncorrectQuery => "Incorrect query"@,
            StoreFailure::QueryResultIsEmpty => "Query result is empty"@,
            StoreFailure::Unexpected(_) => "Unexpected error"@,
        }
    }
}

impl DataStoreError {
    /// An unexpected failure with the given detail.
    pub fn unexpected(detail: &str) -> (e: DataStoreError)
        ensures
            e@ == StoreFailure::Unexpected(detail@),
    {
        DataStoreError::UnexpectedError(String::from_str(detail))
    }

    /// The text that names the failure.
    pub fn description(&self) -> (s: String)
        ensures
            s@ == self@.description(),
    {
        match self {
            DataStoreError::IncorrectQuery => String::from_str("Incorrect query"),
            DataStoreError::QueryResultIsEmpty => String::from_str("Query result is empty"),
            DataStoreError::UnexpectedError(_) => String::from_str("Unexpected error"),
        }
    }
}

} // verus!
