//! The store: named, append-only collections of records.

use vstd::prelude::*;
use vstd::hash_map::StringHashMap;
use crate::error::Error;
use crate::model::{append, lookup, Collections};
use crate::payload::{Payload, Record};

verus! {

/// In-memory store of JSON records, grouped in named collections.
///
/// Each collection lives in a slot of `slots`; `index` maps a collection's
/// name to its slot.
pub struct State {
    index: StringHashMap<usize>,
    slots: Vec<Vec<Record>>,
}

impl View for State {
    type V = Collections;

    /// The contents of the store.
    closed spec fn view(&self) -> Collections {
        Map::new(
            |name: Seq<char>| self.index@.contains_key(name),
            |name: Seq<char>| self.slots@[self.index@[name] as int]@,
        )
    }
}

impl State {
    /// Every name leads to a slot of its own.
    #[verifier::type_invariant]
    spec fn well_formed(self) -> bool {
        &&& forall|name: Seq<char>| #[trigger]
            self.index@.contains_key(name) ==> self.index@[name] < self.slots@.len()
        &&& forall|a: Seq<char>, b: Seq<char>|
            self.index@.contains_key(a) && self.index@.contains_key(b) && a != b
                ==> #[trigger] self.index@[a] != #[trigger] self.index@[b]
    }

    /// An empty store: no collection exists yet.
    pub fn new() -> (state: State)
        ensures
            state@ == Map::<Seq<char>, Seq<Record>>::empty(),
    {
        let state = State { index: StringHashMap::new(), slots: Vec::new() };
        assert(state@ =~= Map::<Seq<char>, Seq<Record>>::empty());
        state
    }

    /// Insert `payload` into the `typ` collection.
    ///
    /// Only a JSON object is accepted. It is added at the end of the
    /// collection, so its id is the number of records the collection held
    /// before; a collection that did not exist is created with it. Any other
    /// payload is refused and the store stays as it was.
    pub fn insert(&mut self, typ: &String, payload: Payload) -> (outcome: Result<(), Error>)
        ensures
            match payload {
                Payload::Object(record) => outcome is Ok && final(self)@ == append(
                    old(self)@,
                    typ@,
                    record,
                ),
                _ => outcome == Err::<(), Error>(Error::InvalidPayload) && final(self)@ == old(
                    self,
                )@,
            },
    {
        let record = match payload {
            Payload::Object(record) => record,
            _ => {
                return Err(Error::InvalidPayload);
            },
        };
        let mut taken = State::new();
        std::mem::swap(self, &mut taken);
        proof {
            use_type_invariant(&taken);
        }
        let State { mut index, mut slots } = taken;
        let found = match index.get(typ.as_str()) {
            Some(slot) => Some(*slot),
            None => None,
        };
        match found {
            Some(slot) => {
                slots[slot].push(record);
            },
            None => {
                let slot = slots.len();
                let mut records = Vec::new();
                records.push(record);
                slots.push(records);
                index.insert(typ.clone(), slot);
            },
        }
        *self = State { index, slots };
        assert(self@ =~= append(old(self)@, typ@, record));
        Ok(())
    }

    /// Get the `id`-th record from the `typ` collection, if both the
    /// collection and the position exist.
    pub fn get(&self, typ: &String, id: usize) -> (found: Option<Record>)
        ensures
            found == lookup(self@, typ@, id as int),
    {
        proof {
            use_type_invariant(self);
        }
        match self.index.get(typ.as_str()) {
            Some(slot) => {
                let records = &self.slots[*slot];
                if id < records.len() {
                    Some(records[id].clone())
                } else {
                    None
                }
            },
            None => None,
        }
    }
}

} // verus!
