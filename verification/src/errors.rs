//! The closed set of outcomes a store operation can signal.
//!
//! The taxonomy is distinct from any transport mapping: `status_code`
//! gives the conventional HTTP status for each kind, but the store
//! itself is transport-agnostic.

use vstd::prelude::*;
use vstd::string::StringExecFns;

verus! {

/// Everything a store operation can fail with.
///
/// - `Conflict`: an insert named an `id` that already exists.
/// - `NotFound`: a get, update or delete named an `id` that does not exist.
/// - `LockError`: the shared lock was found corrupted, tagged with a
///   description of the acquisition mode that detected it. The verified
///   store never produces this: its lock cannot be poisoned, because
///   every operation is proved free of panics and re-establishes the
///   collection invariant before releasing. The kind is kept so that a
///   boundary layer built on a poisoning lock can use the same taxonomy.
#[derive(Debug)]
pub enum HttpAppError {
    Conflict,
    NotFound,
    LockError(String),
}

impl HttpAppError {
    /// The error signalled when acquiring the lock in shared (read) mode
    /// finds it corrupted.
    pub fn read_lock_poisoned() -> (e: HttpAppError)
        ensures
            e matches HttpAppError::LockError(m) && m@ == "Read Lock was poisoned"@,
    {
        HttpAppError::LockError(String::from_str("Read Lock was poisoned"))
    }

    /// The error signalled when acquiring the lock in exclusive (write)
    /// mode finds it corrupted.
    pub fn write_lock_poisoned() -> (e: HttpAppError)
        ensures
            e matches HttpAppError::LockError(m) && m@ == "Write Lock was poisoned"@,
    {
        HttpAppError::LockError(String::from_str("Write Lock was poisoned"))
    }

    /// A human-readable description of the error.
    pub fn message(&self) -> (r: String)
        ensures
            *self is Conflict ==> r@ == "An element with the same ID already exists"@,
            *self is NotFound ==> r@ == "Not found"@,
            self matches HttpAppError::LockError(m) ==> r@ == "Poison error "@ + m@,
    {
        match self {
            HttpAppError::Conflict => String::from_str("An element with the same ID already exists"),
            HttpAppError::NotFound => String::from_str("Not found"),
            HttpAppError::LockError(m) => {
                let mut s = String::from_str("Poison error ");
                s.append(m.as_str());
                s
            },
        }
    }

    /// The HTTP status conventionally associated with this error:
    /// `Conflict` is a client-resolvable duplicate (409), `NotFound` a
    /// missing resource (404), and `LockError` a server-side fault (500).
    pub fn status_code(&self) -> (r: u16)
        ensures
            *self is Conflict ==> r == 409,
            *self is NotFound ==> r == 404,
            *self is LockError ==> r == 500,
    {
        match self {
            HttpAppError::Conflict => 409,
            HttpAppError::NotFound => 404,
            HttpAppError::LockError(_) => 500,
        }
    }
}

} // verus!
