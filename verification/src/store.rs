//! The store: an in-memory map from the 64-bit identifier value to the
//! movie record. Keys are unique and a write replaces the whole record;
//! there is no deletion. Viewed as a `Map<u64, MovieView>`.

use vstd::prelude::*;
use std::collections::HashMap;
use crate::model::{Movie, MovieView};

verus! {

broadcast use vstd::std_specs::hash::group_hash_axioms;

/// The mapping from movie identifier value to movie record — the system's
/// only state.
pub struct Store {
    db: HashMap<u64, Movie>,
}

impl View for Store {
    type V = Map<u64, MovieView>;

    closed spec fn view(&self) -> Map<u64, MovieView> {
        self.db@.map_values(|m: Movie| m@)
    }
}

impl Store {
    /// Creates an empty store.
    pub fn new() -> (s: Store)
        ensures
            s@ == Map::<u64, MovieView>::empty(),
    {
        let s = Store { db: HashMap::new() };
        proof {
            assert(s@ =~= Map::<u64, MovieView>::empty());
        }
        s
    }

    /// Looks a record up by its identifier value.
    pub fn get(&self, key: u64) -> (r: Option<&Movie>)
        ensures
            match r {
                Some(m) => self@.contains_key(key) && m@ == self@[key],
                None => !self@.contains_key(key),
            },
    {
        self.db.get(&key)
    }

    /// Inserts a record under `key`, replacing whatever was there: the new
    /// store maps `key` to this record and agrees with the old store
    /// everywhere else.
    pub fn insert(&mut self, key: u64, movie: Movie)
        ensures
            final(self)@ == old(self)@.insert(key, movie@),
    {
        self.db.insert(key, movie);
        proof {
            assert(self@ =~= old(self)@.insert(key, movie@));
        }
    }
}

} // verus!
