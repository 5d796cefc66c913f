//! What can go wrong: in a repository, and at the service boundary.

use vstd::prelude::*;

verus! {

/// Why the store could not carry out what was asked of it.
#[derive(Clone, Copy, Debug, PartialEq, Eq, Structural)]
pub enum StorageFault {
    /// The statement names a relation that is not the one it was given to.
    UnknownRelation,
    /// The conflict clause names a target that is no uniqueness constraint
    /// of the relation.
    NoSuchConstraint,
    /// A row holds no entity: a column is missing, or holds a value of
    /// another type.
    MalformedRow,
    /// The counter is not that of the sequence.
    UnknownSequence,
    /// The counter has reached the largest value.
    SequenceExhausted,
}

/// Why a repository operation did not deliver.
#[derive(Clone, Copy, Debug, PartialEq, Eq, Structural)]
pub enum RepoError {
    /// The store failed; the fault says how.
    Storage(StorageFault),
    /// No row was there for the caller to see.
    NotFound,
    /// More than one row matched where exactly one was asked for.
    MultipleRowsMatched,
    /// The caller may not make this change.
    Forbidden,
    /// The change would break a uniqueness constraint of the relation.
    ConstraintViolation,
}

impl RepoError {
    /// The HTTP status that reports the error: 404 for what is not there or
    /// not to be seen, 403 for a forbidden change, 409 for a change that
    /// conflicts with what is stored, 500 where the store or the repository
    /// itself is at fault.
    pub open spec fn status(self) -> u16 {
        match self {
            RepoError::Storage(_) => 500,
            RepoError::NotFound => 404,
            RepoError::MultipleRowsMatched => 500,
            RepoError::Forbidden => 403,
            RepoError::ConstraintViolation => 409,
        }
    }

    /// The HTTP status that reports the error.
    pub fn code(&self) -> (status: u16)
        ensures
            status == self.status(),
    {
        match self {
            RepoError::Storage(_) | RepoError::MultipleRowsMatched => 500,
            RepoError::NotFound => 404,
            RepoError::Forbidden => 403,
            RepoError::ConstraintViolation => 409,
        }
    }

    /// The message that describes the error.
    pub fn message(&self) -> (text: &'static str)
        ensures
            text@ == self.description()@,
    {
        match self {
            RepoError::Storage(_) => "Storage failure",
            RepoError::NotFound => "Not found",
            RepoError::MultipleRowsMatched => "Multiple rows matched",
            RepoError::Forbidden => "Forbidden",
            RepoError::ConstraintViolation => "Constraint violation",
        }
    }

    /// The model of [`RepoError::message`].
    pub open spec fn description(self) -> &'static str {
        match self {
            RepoError::Storage(_) => "Storage failure",
            RepoError::NotFound => "Not found",
            RepoError::MultipleRowsMatched => "Multiple rows matched",
            RepoError::Forbidden => "Forbidden",
            RepoError::ConstraintViolation => "Constraint violation",
        }
    }
}

/// Why a request could not be served.
#[derive(Clone, Copy, Debug, PartialEq, Eq, Structural)]
pub enum Error {
    MissingUserId,
    UserIdParse,
    ParseError,
    InvalidRoute,
    NotFound,
}

impl Error {
    /// The HTTP status that reports the error: 400 where the caller's
    /// identity is missing or unreadable, 422 where a payload does not
    /// parse, 404 for an unknown route or a missing entity.
    pub open spec fn status(self) -> u16 {
        match self {
            Error::MissingUserId => 400,
            Error::UserIdParse => 400,
            Error::ParseError => 422,
            Error::InvalidRoute => 404,
            Error::NotFound => 404,
        }
    }

    /// The HTTP status that reports the error.
    pub fn code(&self) -> (status: u16)
        ensures
            status == self.status(),
    {
        match self {
            Error::MissingUserId | Error::UserIdParse => 400,
            Error::ParseError => 422,
            Error::InvalidRoute => 404,
            Error::NotFound => 404,
        }
    }

    /// The structured payload that travels with the error: there is none.
    pub fn payload(&self) -> (payload: Option<String>)
        ensures
            payload is None,
    {
        None
    }

    /// The message that describes the error.
    pub fn message(&self) -> (text: &'static str)
        ensures
            text@ == self.description()@,
    {
        match self {
            Error::MissingUserId => "Missing user_id",
            Error::UserIdParse => "Failed to parse user_id",
            Error::ParseError => "Parse failure",
            Error::InvalidRoute => "Invalid route",
            Error::NotFound => "Not found",
        }
    }

    /// The model of [`Error::message`].
    pub open spec fn description(self) -> &'static str {
        match self {
            Error::MissingUserId => "Missing user_id",
            Error::UserIdParse => "Failed to parse user_id",
            Error::ParseError => "Parse failure",
            Error::InvalidRoute => "Invalid route",
            Error::NotFound => "Not found",
        }
    }
}

} // verus!
