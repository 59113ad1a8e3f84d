//! The row shape of the key–value store that the persistence
//! collaborator hands back for the data inspection view.

use vstd::prelude::*;

verus! {

/// One key–value pair of the store.
#[derive(Clone, Debug)]
pub struct KvEntry {
    pub key: String,
    pub value: String,
}

impl KvEntry {
    pub fn new(key: String, value: String) -> (r: Self)
        ensures
            r.key == key,
            r.value == value,
    {
        KvEntry { key, value }
    }
}

} // verus!
