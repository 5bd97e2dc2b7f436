//! The store as a mathematical object, and what holds of it.
//!
//! A store is a map from collection names to sequences of records. The
//! executable store in [`crate::state`] is specified against the functions
//! defined here, so the lemmas below speak of every state it can be in.

use vstd::prelude::*;
use crate::payload::Record;

verus! {

/// The contents of a store: every collection that exists, under its name,
/// with its records in insertion order. A record's position is its id.
pub type Collections = Map<Seq<char>, Seq<Record>>;

/// The number of records in the collection `name`; zero for a collection
/// that does not exist.
pub open spec fn length(store: Collections, name: Seq<char>) -> nat {
    if store.contains_key(name) {
        store[name].len()
    } else {
        0
    }
}

/// The record with id `id` in the collection `name`, if there is one.
pub open spec fn lookup(store: Collections, name: Seq<char>, id: int) -> Option<Record> {
    if store.contains_key(name) && 0 <= id < store[name].len() {
        Some(store[name][id])
    } else {
        None
    }
}

/// The store after `record` has been added at the end of the collection
/// `name`, which comes into being with this record if it did not exist.
pub open spec fn append(store: Collections, name: Seq<char>, record: Record) -> Collections {
    if store.contains_key(name) {
        store.insert(name, store[name].push(record))
    } else {
        store.insert(name, seq![record])
    }
}

/// The store after each of `records` has been added to the collection
/// `name`, one after the other, in the order of the sequence.
pub open spec fn append_all(store: Collections, name: Seq<char>, records: Seq<Record>) -> Collections
    decreases records.len(),
{
    if records.len() == 0 {
        store
    } else {
        append(append_all(store, name, records.drop_last()), name, records.last())
    }
}

/// A record added to a collection of `n` records is from then on the record
/// with id `n`, and the collection has `n + 1` records.
pub proof fn lemma_appended_record_is_last(store: Collections, name: Seq<char>, record: Record)
    ensures
        lookup(append(store, name, record), name, length(store, name) as int) == Some(record),
        length(append(store, name, record), name) == length(store, name) + 1,
{
}

/// Nothing is found in a collection that does not exist, nor at a position
/// outside the collection.
pub proof fn lemma_lookup_outside_is_none(store: Collections, name: Seq<char>, id: int)
    requires
        !store.contains_key(name) || id < 0 || id >= length(store, name),
    ensures
        lookup(store, name, id) is None,
{
}

/// What is found depends on the store and on the place asked for, and on
/// nothing else: two reads of one place in one store agree.
pub proof fn lemma_lookup_repeats(
    store: Collections,
    name: Seq<char>,
    id: int,
    first: Option<Record>,
    second: Option<Record>,
)
    requires
        first == lookup(store, name, id),
        second == lookup(store, name, id),
    ensures
        first == second,
{
}

/// Adding a record changes what is found at one place only, the end of the
/// collection it goes to: every id keeps its record, and the other
/// collections are as they were.
pub proof fn lemma_append_keeps_the_rest(
    store: Collections,
    name: Seq<char>,
    record: Record,
    other: Seq<char>,
    id: int,
)
    requires
        other != name || id != length(store, name),
    ensures
        lookup(append(store, name, record), other, id) == lookup(store, other, id),
{
}

/// A store only grows: adding a record removes no collection and shortens
/// none.
pub proof fn lemma_append_only_grows(
    store: Collections,
    name: Seq<char>,
    record: Record,
    other: Seq<char>,
)
    ensures
        store.contains_key(other) ==> append(store, name, record).contains_key(other),
        append(store, name, record).contains_key(name),
        length(append(store, name, record), other) >= length(store, other),
{
}

/// Records added one after the other take the next ids in that order, and
/// every other place is as it was.
pub proof fn lemma_append_all(store: Collections, name: Seq<char>, records: Seq<Record>)
    ensures
        length(append_all(store, name, records), name) == length(store, name) + records.len(),
        forall|j: int|
            0 <= j < records.len() ==> lookup(
                append_all(store, name, records),
                name,
                length(store, name) + j,
            ) == Some(#[trigger] records[j]),
        forall|other: Seq<char>, id: int|
            other != name || id < length(store, name) ==> #[trigger] lookup(
                append_all(store, name, records),
                other,
                id,
            ) == lookup(store, other, id),
    decreases records.len(),
{
    if records.len() > 0 {
        let front = records.drop_last();
        lemma_append_all(store, name, front);
        let before = append_all(store, name, front);
        assert forall|j: int| 0 <= j < records.len() implies lookup(
            append_all(store, name, records),
            name,
            length(store, name) + j,
        ) == Some(#[trigger] records[j]) by {
            if j < front.len() {
                assert(front[j] == records[j]);
            }
        }
        assert forall|other: Seq<char>, id: int|
            other != name || id < length(store, name) implies #[trigger] lookup(
            append_all(store, name, records),
            other,
            id,
        ) == lookup(store, other, id) by {
            assert(lookup(before, other, id) == lookup(store, other, id));
        }
    }
}

/// No insert is lost, whatever order the inserts are admitted in.
///
/// Let `records` be the records that a number of callers insert into the
/// collection `name` at the same time, and `admitted` the same records in
/// the order in which the store takes them up. Then the collection grows by
/// exactly their number, and each of the records is found at one of the new
/// ids.
pub proof fn lemma_no_insert_is_lost(
    store: Collections,
    name: Seq<char>,
    records: Seq<Record>,
    admitted: Seq<Record>,
)
    requires
        admitted.to_multiset() == records.to_multiset(),
    ensures
        length(append_all(store, name, admitted), name) == length(store, name) + records.len(),
        forall|j: int|
            0 <= j < records.len() ==> exists|id: int|
                length(store, name) <= id < length(store, name) + records.len() && #[trigger] lookup(
                    append_all(store, name, admitted),
                    name,
                    id,
                ) == Some(#[trigger] records[j]),
{
    lemma_append_all(store, name, admitted);
    admitted.to_multiset_ensures();
    records.to_multiset_ensures();
    assert forall|j: int| 0 <= j < records.len() implies exists|id: int|
        length(store, name) <= id < length(store, name) + records.len() && #[trigger] lookup(
            append_all(store, name, admitted),
            name,
            id,
        ) == Some(#[trigger] records[j]) by {
        assert(records.contains(records[j]));
        assert(records.to_multiset().count(records[j]) > 0);
        assert(admitted.to_multiset().count(records[j]) > 0);
        assert(admitted.contains(records[j]));
        let i = choose|i: int| 0 <= i < admitted.len() && admitted[i] == records[j];
        assert(lookup(append_all(store, name, admitted), name, length(store, name) + i) == Some(
            admitted[i],
        ));
    }
}

} // verus!
