//! The operations that callers ask for, composed of repository operations.

pub mod roles;
pub mod warehouse;

use vstd::prelude::*;
use crate::errors::RepoError;

verus! {

/// What a service operation gives back.
pub type ServiceResult<T> = Result<T, RepoError>;

/// The last of the entities found, if any was found.
pub open spec fn last_found<V>(found: Result<Seq<V>, RepoError>) -> Result<Option<V>, RepoError> {
    match found {
        Err(e) => Err(e),
        Ok(entries) => if entries.len() == 0 {
            Ok(None)
        } else {
            Ok(Some(entries.last()))
        },
    }
}

/// The model of an entity that may have been found, or the error.
pub open spec fn found<T: View>(r: Result<Option<T>, RepoError>) -> Result<Option<T::V>, RepoError> {
    match r {
        Err(e) => Err(e),
        Ok(None) => Ok(None),
        Ok(Some(entry)) => Ok(Some(entry@)),
    }
}

} // verus!
