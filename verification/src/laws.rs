//! Laws of the record store, stated over the sequence model and proved
//! once and for all.
//!
//! The preservation lemmas are the inductive content of the collection
//! invariant: every mutating operation keeps `unique_ids`, so at no
//! point can two records share an `id`. The remaining lemmas relate
//! consecutive operations: what a get observes after an insert, an
//! update, or a delete.

use vstd::prelude::*;
use crate::person::Person;
use crate::store::contains_id;
use crate::store::index_of_id;
use crate::store::lemma_index_of_id_unique;
use crate::store::spec_delete;
use crate::store::spec_get;
use crate::store::spec_update;
use crate::store::unique_ids;

verus! {

/// Appending a record whose `id` is absent keeps all ids unique.
pub proof fn lemma_insert_preserves_uniqueness(s: Seq<Person>, p: Person)
    requires
        unique_ids(s),
        !contains_id(s, p.id),
    ensures
        unique_ids(s.push(p)),
{
    let t = s.push(p);
    assert forall|i: int, j: int|
        #![trigger t[i].id, t[j].id]
        0 <= i < j < t.len() implies t[i].id != t[j].id by {
        assert(t[i] == s[i]);
        if j == s.len() {
            if t[i].id == p.id {
                assert(s[i].id == p.id);
            }
        } else {
            assert(t[j] == s[j]);
        }
    }
}

/// Replacing the record keyed `p.id` wholesale by `p` keeps all ids
/// unique, and afterwards `p` is the record a get observes under that
/// `id`.
pub proof fn lemma_update_preserves_uniqueness(s: Seq<Person>, p: Person)
    requires
        unique_ids(s),
        contains_id(s, p.id),
    ensures
        unique_ids(spec_update(s, p)),
        spec_get(spec_update(s, p), p.id) == Some(p),
{
    let k = index_of_id(s, p.id);
    assert(0 <= k < s.len() && s[k].id == p.id);
    let t = spec_update(s, p);
    assert forall|i: int, j: int|
        #![trigger t[i].id, t[j].id]
        0 <= i < j < t.len() implies t[i].id != t[j].id by {
        if i != k {
            assert(t[i] == s[i]);
        }
        if j != k {
            assert(t[j] == s[j]);
        }
        if i == k {
            assert(s[j].id != s[k].id);
        }
        if j == k {
            assert(s[i].id != s[k].id);
        }
    }
    assert(t[k] == p);
    lemma_index_of_id_unique(t, p.id, k);
}

/// Removing the record keyed `id` keeps all ids unique, and afterwards
/// no record carries that `id`.
pub proof fn lemma_delete_preserves_uniqueness(s: Seq<Person>, id: u32)
    requires
        unique_ids(s),
        contains_id(s, id),
    ensures
        unique_ids(spec_delete(s, id)),
        !contains_id(spec_delete(s, id), id),
{
    let k = index_of_id(s, id);
    assert(0 <= k < s.len() && s[k].id == id);
    let t = spec_delete(s, id);
    assert forall|i: int, j: int|
        #![trigger t[i].id, t[j].id]
        0 <= i < j < t.len() implies t[i].id != t[j].id by {
        if i < k {
            assert(t[i] == s[i]);
        } else {
            assert(t[i] == s[i + 1]);
        }
        if j < k {
            assert(t[j] == s[j]);
        } else {
            assert(t[j] == s[j + 1]);
        }
    }
    assert forall|i: int| 0 <= i < t.len() implies #[trigger] t[i].id != id by {
        if i < k {
            assert(t[i] == s[i]);
            assert(s[i].id != s[k].id);
        } else {
            assert(t[i] == s[i + 1]);
            assert(s[i + 1].id != s[k].id);
        }
    }
}

/// Round trip: inserting a fresh record and then getting its `id`
/// observes exactly that record.
pub proof fn lemma_insert_then_get(s: Seq<Person>, p: Person)
    requires
        unique_ids(s),
        !contains_id(s, p.id),
    ensures
        spec_get(s.push(p), p.id) == Some(p),
{
    lemma_insert_preserves_uniqueness(s, p);
    let t = s.push(p);
    assert(t[s.len() as int] == p);
    lemma_index_of_id_unique(t, p.id, s.len() as int);
}

/// Update overwrite: inserting a fresh record `p` and then updating its
/// `id` with `q` leaves a get observing exactly `q` — every field of
/// `q`, with the `id` unchanged.
pub proof fn lemma_insert_then_update_then_get(s: Seq<Person>, p: Person, q: Person)
    requires
        unique_ids(s),
        !contains_id(s, p.id),
        q.id == p.id,
    ensures
        spec_get(spec_update(s.push(p), q), q.id) == Some(q),
{
    lemma_insert_preserves_uniqueness(s, p);
    let t = s.push(p);
    assert(t[s.len() as int] == p);
    lemma_index_of_id_unique(t, q.id, s.len() as int);
    lemma_update_preserves_uniqueness(t, q);
}

/// Delete removes: inserting a fresh record and then deleting its `id`
/// restores the original collection, so a get signals absence.
pub proof fn lemma_insert_then_delete_then_get(s: Seq<Person>, p: Person)
    requires
        unique_ids(s),
        !contains_id(s, p.id),
    ensures
        spec_delete(s.push(p), p.id) == s,
        spec_get(spec_delete(s.push(p), p.id), p.id) == None::<Person>,
{
    lemma_insert_preserves_uniqueness(s, p);
    let t = s.push(p);
    assert(t[s.len() as int] == p);
    lemma_index_of_id_unique(t, p.id, s.len() as int);
    assert(spec_delete(t, p.id) =~= s);
}

} // verus!
