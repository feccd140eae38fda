//! An in-memory collection of person records guarded by a verified
//! readers-writer lock.
//!
//! The collection admits at most one record per `id`; that invariant is
//! stated as the lock's predicate, so it holds at every point where the
//! lock is free. All five operations (list, get, insert, update, delete)
//! carry full functional contracts over a sequence model of the
//! collection.

pub mod errors;
pub mod laws;
pub mod person;
pub mod state;
pub mod store;

pub use errors::HttpAppError;
pub use person::Person;
pub use state::AppState;
pub use store::PersonCollection;
pub use store::create_person_collection;
