//! The sequential core of the record store: a collection of person
//! records keyed by `id`, modelled as a sequence.
//!
//! Every operation carries a full functional contract over the view
//! `Seq<Person>`. The collection invariant — at most one record per
//! `id` — is `unique_ids`; mutating operations require it and
//! re-establish it.

use vstd::prelude::*;
use crate::errors::HttpAppError;
use crate::person::Person;

verus! {

/// No two records in `s` share an `id`.
pub open spec fn unique_ids(s: Seq<Person>) -> bool {
    forall|i: int, j: int|
        #![trigger s[i].id, s[j].id]
        0 <= i < j < s.len() ==> s[i].id != s[j].id
}

/// Some record in `s` has this `id`.
pub open spec fn contains_id(s: Seq<Person>, id: u32) -> bool {
    exists|i: int| 0 <= i < s.len() && #[trigger] s[i].id == id
}

/// An index of a record with this `id`; under `unique_ids` it is the
/// only one.
pub open spec fn index_of_id(s: Seq<Person>, id: u32) -> int
    recommends
        contains_id(s, id),
{
    choose|i: int| 0 <= i < s.len() && #[trigger] s[i].id == id
}

/// The record with this `id`, if any.
pub open spec fn spec_get(s: Seq<Person>, id: u32) -> Option<Person> {
    if contains_id(s, id) {
        Some(s[index_of_id(s, id)])
    } else {
        None
    }
}

/// `s` with the record keyed `p.id` replaced wholesale by `p`.
pub open spec fn spec_update(s: Seq<Person>, p: Person) -> Seq<Person>
    recommends
        contains_id(s, p.id),
{
    s.update(index_of_id(s, p.id), p)
}

/// `s` with the record keyed `id` removed.
pub open spec fn spec_delete(s: Seq<Person>, id: u32) -> Seq<Person>
    recommends
        contains_id(s, id),
{
    s.remove(index_of_id(s, id))
}

/// Under `unique_ids`, an index holding `id` is the index `choose`
/// picks, so `spec_get`, `spec_update` and `spec_delete` all speak of
/// the same record a linear scan finds.
pub proof fn lemma_index_of_id_unique(s: Seq<Person>, id: u32, i: int)
    requires
        unique_ids(s),
        0 <= i < s.len(),
        s[i].id == id,
    ensures
        contains_id(s, id),
        index_of_id(s, id) == i,
{
    assert(contains_id(s, id));
    let k = index_of_id(s, id);
    assert(0 <= k < s.len() && s[k].id == id);
    if k != i {
        assert(s[k].id != s[i].id);
    }
}

/// The authoritative collection of person records.
///
/// Holds the records in insertion order and keeps `unique_ids` across
/// every mutation. Callers receive snapshot copies, never references
/// into the internal storage.
pub struct PersonCollection {
    persons: Vec<Person>,
}

impl View for PersonCollection {
    type V = Seq<Person>;

    closed spec fn view(&self) -> Seq<Person> {
        self.persons@
    }
}

impl PersonCollection {
    /// The collection invariant: at most one record per `id`.
    pub open spec fn wf(&self) -> bool {
        unique_ids(self@)
    }

    /// An empty collection.
    pub fn new() -> (c: Self)
        ensures
            c@ == Seq::<Person>::empty(),
            c.wf(),
    {
        PersonCollection { persons: Vec::new() }
    }

    /// A collection holding exactly these records, in this order.
    ///
    /// Rejects a sequence in which two records share an `id`.
    pub fn from_records(persons: Vec<Person>) -> (r: Result<Self, HttpAppError>)
        ensures
            match r {
                Ok(c) => unique_ids(persons@) && c@ == persons@ && c.wf(),
                Err(e) => e is Conflict && !unique_ids(persons@),
            },
    {
        let n: usize = persons.len();
        let mut k: usize = 0;
        while k < n
            invariant
                k <= n,
                n == persons@.len(),
                unique_ids(persons@.take(k as int)),
            decreases n - k,
        {
            if position_of(&persons, persons[k].id) != Some(k) {
                // The first record carrying this id is not the one at
                // k, so two distinct records share an id.
                proof {
                    let here = persons@[k as int].id;
                    let dup = choose|i: int|
                        0 <= i < persons@.len() && #[trigger] persons@[i].id == here && i != k;
                    assert(persons@[dup].id == here && dup != k);
                }
                return Err(HttpAppError::Conflict);
            }
            proof {
                let t = persons@.take(k as int + 1);
                assert forall|i: int, j: int|
                    #![trigger t[i].id, t[j].id]
                    0 <= i < j < t.len() implies t[i].id != t[j].id by {
                    assert(t[i] == persons@[i]);
                    assert(t[j] == persons@[j]);
                    if j == k as int {
                        assert(persons@[i].id != persons@[k as int].id);
                    }
                }
            }
            k += 1;
        }
        proof {
            assert(persons@.take(n as int) == persons@);
        }
        Ok(PersonCollection { persons })
    }

    /// How many records the collection holds.
    pub fn len(&self) -> (n: usize)
        ensures
            n == self@.len(),
    {
        self.persons.len()
    }

    /// A snapshot copy of all records. Read-only; never fails.
    pub fn list(&self) -> (r: Vec<Person>)
        ensures
            r@ == self@,
    {
        let r = self.persons.clone();
        proof {
            assert(r@ =~= self@);
        }
        r
    }

    /// A snapshot copy of the record with this `id`, or `NotFound` if
    /// none exists. Read-only.
    pub fn get(&self, id: u32) -> (r: Result<Person, HttpAppError>)
        requires
            self.wf(),
        ensures
            match r {
                Ok(p) => contains_id(self@, id) && spec_get(self@, id) == Some(p),
                Err(e) => e is NotFound && !contains_id(self@, id),
            },
    {
        match position_of(&self.persons, id) {
            Some(i) => {
                proof {
                    lemma_index_of_id_unique(self@, id, i as int);
                }
                Ok(self.persons[i].clone())
            },
            None => Err(HttpAppError::NotFound),
        }
    }

    /// Appends `person` to the collection, or signals `Conflict` and
    /// leaves the collection unchanged if its `id` already exists.
    /// Exclusive access.
    pub fn insert(&mut self, person: Person) -> (r: Result<(), HttpAppError>)
        requires
            old(self).wf(),
        ensures
            final(self).wf(),
            match r {
                Ok(()) => !contains_id(old(self)@, person.id) && final(self)@ == old(self)@.push(
                    person,
                ),
                Err(e) => e is Conflict && contains_id(old(self)@, person.id) && final(self)@
                    == old(self)@,
            },
    {
        match position_of(&self.persons, person.id) {
            Some(_) => Err(HttpAppError::Conflict),
            None => {
                proof {
                    crate::laws::lemma_insert_preserves_uniqueness(self@, person);
                }
                self.persons.push(person);
                Ok(())
            },
        }
    }

    /// Overwrites the `name`, `age` and `date` of the record keyed
    /// `person.id` wholesale with the incoming values (the `id` itself
    /// is immutable post-creation), or signals `NotFound` and leaves the
    /// collection unchanged if no such record exists. Exclusive access.
    pub fn update(&mut self, person: Person) -> (r: Result<(), HttpAppError>)
        requires
            old(self).wf(),
        ensures
            final(self).wf(),
            match r {
                Ok(()) => contains_id(old(self)@, person.id) && final(self)@ == spec_update(
                    old(self)@,
                    person,
                ),
                Err(e) => e is NotFound && !contains_id(old(self)@, person.id) && final(self)@
                    == old(self)@,
            },
    {
        match position_of(&self.persons, person.id) {
            Some(i) => {
                proof {
                    lemma_index_of_id_unique(self@, person.id, i as int);
                    crate::laws::lemma_update_preserves_uniqueness(self@, person);
                }
                self.persons.remove(i);
                self.persons.insert(i, person);
                proof {
                    assert(self.persons@ =~= old(self)@.update(i as int, person));
                }
                Ok(())
            },
            None => Err(HttpAppError::NotFound),
        }
    }

    /// Removes the record keyed `id`, or signals `NotFound` and leaves
    /// the collection unchanged if no such record exists. Exclusive
    /// access. The records that remain keep their relative order.
    pub fn delete(&mut self, id: u32) -> (r: Result<(), HttpAppError>)
        requires
            old(self).wf(),
        ensures
            final(self).wf(),
            match r {
                Ok(()) => contains_id(old(self)@, id) && final(self)@ == spec_delete(
                    old(self)@,
                    id,
                ),
                Err(e) => e is NotFound && !contains_id(old(self)@, id) && final(self)@ == old(
                    self,
                )@,
            },
    {
        match position_of(&self.persons, id) {
            Some(i) => {
                proof {
                    lemma_index_of_id_unique(self@, id, i as int);
                    crate::laws::lemma_delete_preserves_uniqueness(self@, id);
                }
                self.persons.remove(i);
                Ok(())
            },
            None => Err(HttpAppError::NotFound),
        }
    }
}

/// The index of the first record with this `id`, by linear scan.
fn position_of(persons: &Vec<Person>, id: u32) -> (r: Option<usize>)
    ensures
        match r {
            Some(i) => i < persons@.len() && persons@[i as int].id == id && forall|j: int|
                0 <= j < i ==> persons@[j].id != id,
            None => !contains_id(persons@, id),
        },
{
    let n: usize = persons.len();
    let mut k: usize = 0;
    while k < n
        invariant
            k <= n,
            n == persons@.len(),
            forall|j: int| 0 <= j < k ==> persons@[j].id != id,
        decreases n - k,
    {
        if persons[k].id == id {
            return Some(k);
        }
        k += 1;
    }
    None
}

/// The fixed initial state: the two sample records the store is seeded
/// with at startup.
pub fn create_person_collection() -> (c: PersonCollection)
    ensures
        c.wf(),
        c@.len() == 2,
        c@[0].id == 1 && c@[0].name@ == "Alice"@ && c@[0].age == 30 && c@[0].date@ == "2023-01-01"@,
        c@[1].id == 2 && c@[1].name@ == "Bob"@ && c@[1].age == 25 && c@[1].date@ == "2023-01-02"@,
{
    let alice = Person {
        id: 1,
        name: String::from_str("Alice"),
        age: 30,
        date: String::from_str("2023-01-01"),
    };
    let bob = Person {
        id: 2,
        name: String::from_str("Bob"),
        age: 25,
        date: String::from_str("2023-01-02"),
    };
    let mut persons: Vec<Person> = Vec::new();
    persons.push(alice);
    persons.push(bob);
    PersonCollection { persons }
}

} // verus!
