//! The person record: the sole entity held by the store.

use vstd::prelude::*;

verus! {

/// One person record.
///
/// `id` is caller-supplied and serves as the unique key within the
/// collection. `date` is carried as text and is stored and returned
/// verbatim; the store never interprets it.
#[derive(Debug, PartialEq, Eq)]
pub struct Person {
    pub id: u32,
    pub name: String,
    pub age: i32,
    pub date: String,
}

impl Clone for Person {
    /// A clone is a snapshot copy: equal to the original in every field.
    fn clone(&self) -> (res: Self)
        ensures
            res == *self,
    {
        Person {
            id: self.id,
            name: self.name.clone(),
            age: self.age,
            date: self.date.clone(),
        }
    }
}

} // verus!
