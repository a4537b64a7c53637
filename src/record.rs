//! One registered destination and its visit counter.
use std::sync::atomic::{AtomicU64, Ordering};
use std::sync::Arc;
use vstd::prelude::*;

verus! {

/// A destination, fixed at creation, and the number of redirects made to it.
///
/// The counter is shared by every worker that holds the record and is only
/// touched through atomic operations, so its value is not part of what
/// contracts can speak of: another thread may change it at any moment.
pub struct Data {
    pub location: String,
    pub visitors: AtomicU64,
}

impl Data {
    /// A fresh record for `location`, with its counter at zero.
    pub fn new(location: String) -> (r: Arc<Data>)
        ensures
            r.location == location,
    {
        Arc::new(Data { location, visitors: AtomicU64::new(0) })
    }

    /// Counts one visit; the counter wraps past `u64::MAX`.
    pub fn visit(&self) {
        self.visitors.fetch_add(1, Ordering::Relaxed);
    }

    /// The number of visits counted so far (possibly missing one that is
    /// being counted at the same moment).
    pub fn visits(&self) -> u64 {
        self.visitors.load(Ordering::Relaxed)
    }
}

} // verus!
