//! The shared slug registry, held in a sharded concurrent map.
//!
//! Every operation takes `&self`: the map locks one shard at a time, so
//! workers on unrelated slugs do not wait for each other. Because other
//! workers may change the map between any two calls, nothing is promised
//! about what one lookup finds; the routing logic is verified for whatever
//! it finds.
use crate::record::Data;
use dashmap::DashMap;
use std::sync::Arc;
use vstd::prelude::*;

verus! {

#[verifier::external_type_specification]
#[verifier::external_body]
#[verifier::reject_recursive_types(K)]
#[verifier::reject_recursive_types(V)]
#[verifier::reject_recursive_types(S)]
pub struct ExDashMap<K, V, S>(DashMap<K, V, S>);

/// Relies on `DashMap::new`: an empty map with the default hasher.
#[verifier::external_body]
fn new_map() -> (m: DashMap<String, Arc<Data>>) {
    DashMap::new()
}

/// Relies on `DashMap::insert`: stores `record` under `slug`, replacing any
/// record stored there before.
#[verifier::external_body]
fn map_insert(m: &DashMap<String, Arc<Data>>, slug: String, record: Arc<Data>) {
    m.insert(slug, record);
}

/// Relies on `DashMap::get`: a handle on the record stored under `slug`, if
/// any; the shard's read guard is released before returning.
#[verifier::external_body]
fn map_get(m: &DashMap<String, Arc<Data>>, slug: &str) -> (r: Option<Arc<Data>>) {
    m.get(slug).map(|entry| entry.value().clone())
}

/// The map from slugs to their records.
pub struct Registry {
    records: DashMap<String, Arc<Data>>,
}

impl Registry {
    /// An empty registry.
    pub fn new() -> (r: Registry) {
        Registry { records: new_map() }
    }

    /// Stores a fresh record for `location` under `slug`, with its counter
    /// at zero; a record stored there before is dropped with its count.
    pub fn insert(&self, slug: &str, location: &str) {
        let record = Data::new(location.to_owned());
        map_insert(&self.records, slug.to_owned(), record);
    }

    /// A handle on the record currently stored under `slug`, if any.
    pub fn get(&self, slug: &str) -> (r: Option<Arc<Data>>) {
        map_get(&self.records, slug)
    }

    /// Counts one visit of `slug`, if it is registered, and says whether it was.
    pub fn increment_visits(&self, slug: &str) -> (r: bool) {
        match self.get(slug) {
            Some(record) => {
                record.visit();
                true
            },
            None => false,
        }
    }
}

} // verus!
