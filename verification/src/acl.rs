//! Access control: who may do what to which entity.

use vstd::prelude::*;
use crate::errors::RepoError;

verus! {

/// The kind of operation that a caller asks for.
#[derive(Clone, Copy, Debug, PartialEq, Eq, Hash, Structural)]
pub enum Action {
    Select,
    Insert,
    Update,
    Delete,
}

impl Action {
    /// Whether the operation only reads.
    pub fn is_read(&self) -> (b: bool)
        ensures
            b == (*self == Action::Select),
    {
        match self {
            Action::Select => true,
            _ => false,
        }
    }
}

/// A policy that decides, entity by entity, whether a caller may carry out
/// an operation. A policy may have to look something up to decide, and the
/// lookup may fail: then the verdict is the lookup's error.
pub trait AclEngine<T: View> {
    /// The verdict of the policy on one entity and one kind of operation.
    spec fn verdict(&self, entry: T::V, action: Action) -> Result<bool, RepoError>;

    /// Decides whether the caller may carry out `action` on `entry`.
    fn ensure_access(&self, entry: &T, action: Action) -> (r: Result<bool, RepoError>)
        ensures
            r == self.verdict(entry@, action),
    ;
}

/// The policy of the system itself: everything is allowed.
#[derive(Clone, Copy, Debug)]
pub struct SystemACL;

impl<T: View> AclEngine<T> for SystemACL {
    open spec fn verdict(&self, entry: T::V, action: Action) -> Result<bool, RepoError> {
        Ok(true)
    }

    fn ensure_access(&self, entry: &T, action: Action) -> (r: Result<bool, RepoError>) {
        Ok(true)
    }
}

/// The policy for a caller without any right: nothing is allowed.
#[derive(Clone, Copy, Debug)]
pub struct UnauthorizedACL;

impl<T: View> AclEngine<T> for UnauthorizedACL {
    open spec fn verdict(&self, entry: T::V, action: Action) -> Result<bool, RepoError> {
        Ok(false)
    }

    fn ensure_access(&self, entry: &T, action: Action) -> (r: Result<bool, RepoError>) {
        Ok(false)
    }
}

} // verus!
