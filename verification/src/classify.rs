//! Classification of collaborator errors into control flow.
//!
//! The version-control library reports every mishap as an error value
//! carrying a code and a class. Command logic must branch structurally on
//! two situations — a lookup that found nothing, and a checkout that
//! collided with uncommitted changes — without string-matching messages.
//! The adapters here turn exactly those error shapes into ordinary values
//! and leave every other error untouched.

use vstd::prelude::*;

verus! {

/// The error codes the command logic distinguishes; every other code folds
/// into `Other`.
#[derive(Clone, Copy, PartialEq, Eq, Structural, Debug)]
pub enum GitErrorCode {
    /// The requested object does not exist.
    NotFound,
    /// The repository has no commit on its current branch yet.
    UnbornBranch,
    /// Any other code.
    Other,
}

/// The error classes the command logic distinguishes; every other class
/// folds into `Other`.
#[derive(Clone, Copy, PartialEq, Eq, Structural, Debug)]
pub enum GitErrorClass {
    /// Raised by configuration lookups.
    Config,
    /// Raised by reference lookups.
    Reference,
    /// Any other class.
    Other,
}

/// A collaborator error as the command logic sees it: its code, its class
/// and its human-readable description.
#[derive(Debug)]
pub struct GitError {
    pub code: GitErrorCode,
    pub class: GitErrorClass,
    pub message: String,
}

/// The "found nothing" shape: a not-found code raised by a configuration
/// or reference lookup. Only this shape reads as an absent value; a
/// not-found from any other class stays an error.
pub open spec fn reads_as_missing(e: GitError) -> bool {
    e.code is NotFound && (e.class is Config || e.class is Reference)
}

/// Turns the "found nothing" error shape into an absent value.
pub trait Optional<T>: Sized {
    /// What `optional` returns for this value.
    spec fn optional_spec(self) -> Result<Option<T>, GitError>;

    /// A found value stays found, the "found nothing" shape becomes an
    /// absent value, and every other error propagates unchanged.
    fn optional(self) -> (r: Result<Option<T>, GitError>)
        ensures
            r == self.optional_spec(),
    ;
}

impl<T> Optional<T> for Result<T, GitError> {
    open spec fn optional_spec(self) -> Result<Option<T>, GitError> {
        match self {
            Result::Ok(v) => Result::Ok(Option::Some(v)),
            Result::Err(e) => if reads_as_missing(e) {
                Result::Ok(Option::None)
            } else {
                Result::Err(e)
            },
        }
    }

    fn optional(self) -> (r: Result<Option<T>, GitError>) {
        match self {
            Result::Ok(v) => Result::Ok(Option::Some(v)),
            Result::Err(e) => {
                let missing = match (e.code, e.class) {
                    (GitErrorCode::NotFound, GitErrorClass::Config) => true,
                    (GitErrorCode::NotFound, GitErrorClass::Reference) => true,
                    _ => false,
                };
                if missing {
                    Result::Ok(Option::None)
                } else {
                    Result::Err(e)
                }
            },
        }
    }
}

/// How a checkout attempt ended: applied, blocked by uncommitted local
/// changes colliding with the target, or failed outright.
#[derive(Debug)]
pub enum CheckoutError {
    /// The collision's description.
    Conflict(String),
    /// Any other failure.
    Git(GitError),
}

/// Turns a checkout outcome into a recoverable boolean: an applied
/// checkout reads as true, a conflict reads as false so the caller can
/// react (say, by stashing and retrying), and any other failure
/// propagates unchanged.
pub fn try_checkout(outcome: Result<(), CheckoutError>) -> (r: Result<bool, GitError>)
    ensures
        match outcome {
            Result::Ok(()) => r == Result::<bool, GitError>::Ok(true),
            Result::Err(CheckoutError::Conflict(_)) => r == Result::<bool, GitError>::Ok(false),
            Result::Err(CheckoutError::Git(e)) => r == Result::<bool, GitError>::Err(e),
        },
{
    match outcome {
        Result::Ok(()) => Result::Ok(true),
        Result::Err(CheckoutError::Conflict(_)) => Result::Ok(false),
        Result::Err(CheckoutError::Git(e)) => Result::Err(e),
    }
}

} // verus!
