//! The shared application state: the collection behind a verified
//! readers-writer lock.
//!
//! A single lock protects the whole collection as one unit. Any number
//! of read operations may hold it concurrently in shared mode; each
//! mutating operation takes it in exclusive mode, so every operation is
//! atomic with respect to the whole collection. The lock's predicate is
//! the collection invariant, so a collection with two records sharing
//! an `id` can never be stored: uniqueness holds at every point where
//! the lock is free.
//!
//! Every operation on the collection is proved free of panics, so a
//! holder can never exit abnormally and the lock cannot be poisoned;
//! the operations here therefore never signal `LockError`. The
//! per-operation functional contracts live on
//! [`PersonCollection`](crate::store::PersonCollection); under
//! concurrency an observer cannot pin the collection's contents between
//! its own calls, so the contracts here state only what holds of every
//! outcome.

use vstd::prelude::*;
use vstd::rwlock::ReadHandle;
use vstd::rwlock::RwLock;
use vstd::rwlock::RwLockPredicate;
use crate::errors::HttpAppError;
use crate::person::Person;
use crate::store::PersonCollection;
use crate::store::create_person_collection;
use crate::store::unique_ids;

verus! {

/// The lock predicate: only a well-formed collection — one whose
/// records all carry distinct ids — may be stored in the lock.
pub struct CollectionInv;

impl RwLockPredicate<PersonCollection> for CollectionInv {
    open spec fn inv(self, c: PersonCollection) -> bool {
        c.wf()
    }
}

/// The state shared by all request handlers: the record collection
/// behind its lock, and the immutable greeting text used by the landing
/// page (which needs no synchronization).
pub struct AppState {
    pub person_collection: RwLock<PersonCollection, CollectionInv>,
    pub greeting_text: String,
}

impl AppState {
    /// A fresh state seeded with the fixed initial collection (the two
    /// sample records).
    pub fn new(greeting_text: String) -> (s: Self)
        ensures
            s.greeting_text == greeting_text,
    {
        let collection = create_person_collection();
        AppState {
            person_collection: RwLock::new(collection, Ghost(CollectionInv)),
            greeting_text,
        }
    }

    /// A state holding exactly these records. Rejects a sequence in
    /// which two records share an `id`; the check is performed at run
    /// time, so unverified callers can rely on it.
    pub fn with_records(persons: Vec<Person>, greeting_text: String) -> (r: Result<
        Self,
        HttpAppError,
    >)
        ensures
            r is Ok ==> unique_ids(persons@),
            r matches Err(e) ==> e is Conflict && !unique_ids(persons@),
    {
        match PersonCollection::from_records(persons) {
            Ok(collection) => Ok(
                AppState {
                    person_collection: RwLock::new(collection, Ghost(CollectionInv)),
                    greeting_text,
                },
            ),
            Err(e) => Err(e),
        }
    }

    /// A snapshot copy of all records. Shared access: any number of
    /// these may hold the lock at the same time. Never fails.
    pub fn persons(&self) -> (r: Vec<Person>)
        ensures
            unique_ids(r@),
    {
        let read_handle = self.person_collection.acquire_read();
        let r = read_handle.borrow().list();
        read_handle.release_read();
        r
    }

    /// A snapshot copy of the record with this `id`, or `NotFound` if
    /// none exists at the moment the lock is held. Shared access.
    pub fn single_person(&self, id: u32) -> (r: Result<Person, HttpAppError>)
        ensures
            r matches Ok(p) ==> p.id == id,
            r matches Err(e) ==> e is NotFound,
    {
        let read_handle = self.person_collection.acquire_read();
        let r = read_handle.borrow().get(id);
        read_handle.release_read();
        r
    }

    /// Inserts the record, or signals `Conflict` if its `id` exists at
    /// the moment the lock is held. Exclusive access: atomic with
    /// respect to the whole collection.
    pub fn add_person(&self, person: Person) -> (r: Result<(), HttpAppError>)
        ensures
            r matches Err(e) ==> e is Conflict,
    {
        let (mut collection, write_handle) = self.person_collection.acquire_write();
        let r = collection.insert(person);
        write_handle.release_write(collection);
        r
    }

    /// Overwrites the `name`, `age` and `date` of the record keyed
    /// `person.id`, or signals `NotFound` if no such record exists at
    /// the moment the lock is held. Exclusive access.
    pub fn update_person(&self, person: Person) -> (r: Result<(), HttpAppError>)
        ensures
            r matches Err(e) ==> e is NotFound,
    {
        let (mut collection, write_handle) = self.person_collection.acquire_write();
        let r = collection.update(person);
        write_handle.release_write(collection);
        r
    }

    /// Removes the record keyed `id`, or signals `NotFound` if no such
    /// record exists at the moment the lock is held. Exclusive access.
    pub fn delete_person(&self, id: u32) -> (r: Result<(), HttpAppError>)
        ensures
            r matches Err(e) ==> e is NotFound,
    {
        let (mut collection, write_handle) = self.person_collection.acquire_write();
        let r = collection.delete(id);
        write_handle.release_write(collection);
        r
    }

    /// Two snapshots taken through two read handles held at the same
    /// time. The lock admits both holders simultaneously in shared
    /// mode — readers do not exclude each other — and two simultaneous
    /// readers observe the same collection.
    pub fn concurrent_snapshots(&self) -> (r: (Vec<Person>, Vec<Person>))
        ensures
            r.0@ == r.1@,
            unique_ids(r.0@),
    {
        let first_handle = self.person_collection.acquire_read();
        let second_handle = self.person_collection.acquire_read();
        proof {
            ReadHandle::lemma_readers_match(&first_handle, &second_handle);
        }
        let first = first_handle.borrow().list();
        let second = second_handle.borrow().list();
        second_handle.release_read();
        first_handle.release_read();
        (first, second)
    }
}

} // verus!
