//! Service registry: typed registration and lookup of services, one service
//! per type, keyed by the type itself.

use vstd::prelude::*;
use std::sync::Arc;

verus! {

/// The type-keyed table behind the registry: an `anymap2::AnyMap` (a map over
/// `dyn anymap2::any::Any`), kept opaque to the proofs. What it holds is
/// reached only through the functions below.
#[verifier::external_body]
pub struct ServiceTable {
    map: anymap2::AnyMap,
}

/// The number of entries in the table (what `anymap2::Map::len` gives): one
/// per type that a service was registered under.
pub uninterp spec fn service_count(table: ServiceTable) -> nat;

/// `anymap2::AnyMap::new`: a table with no entry.
#[verifier::external_body]
fn table_new() -> (t: ServiceTable)
    ensures
        service_count(t) == 0,
{
    ServiceTable { map: anymap2::AnyMap::new() }
}

/// `anymap2::Map::insert::<Arc<T>>`: stores the service as the one value of
/// type `Arc<T>`, replacing an earlier one of that type (then the count stays)
/// or adding an entry (then it grows by one). The replaced service is dropped
/// here. Which type's entry was touched has no name here.
#[verifier::external_body]
fn table_insert<T: Send + Sync + 'static>(table: &mut ServiceTable, service: Arc<T>)
    ensures
        service_count(*final(table)) >= 1,
        service_count(*old(table)) <= service_count(*final(table)) <= service_count(*old(table)) + 1,
{
    let _ = table.map.insert(service);
}

/// `anymap2::Map::get::<Arc<T>>`, cloning the shared handle found. A table
/// with no entry answers `None`; otherwise whether a service of type `T` is
/// there is not stated.
#[verifier::external_body]
fn table_get<T: Send + Sync + 'static>(table: &ServiceTable) -> (r: Option<Arc<T>>)
    ensures
        service_count(*table) == 0 ==> r is None,
{
    table.map.get::<Arc<T>>().cloned()
}

/// Typed service container. Plugins register services while activating; each
/// service is kept as an `Arc<T>`, so `get` hands out shared handles.
pub struct ServiceRegistry {
    services: ServiceTable,
}

impl ServiceRegistry {
    /// The number of service types registered so far.
    pub closed spec fn count(self) -> nat {
        service_count(self.services)
    }

    /// An empty registry.
    pub fn new() -> (r: Self)
        ensures
            r.count() == 0,
    {
        ServiceRegistry { services: table_new() }
    }

    /// Registers a service instance under its type, replacing an earlier
    /// service of the same type.
    pub fn register<T: Send + Sync + 'static>(&mut self, service: T)
        ensures
            final(self).count() >= 1,
            old(self).count() <= final(self).count() <= old(self).count() + 1,
    {
        table_insert(&mut self.services, Arc::new(service));
    }

    /// A shared handle to the service registered under type `T`, if any; an
    /// empty registry has none.
    pub fn get<T: Send + Sync + 'static>(&self) -> (r: Option<Arc<T>>)
        ensures
            self.count() == 0 ==> r is None,
    {
        table_get::<T>(&self.services)
    }
}

impl Default for ServiceRegistry {
    fn default() -> (r: Self)
        ensures
            r.count() == 0,
    {
        Self::new()
    }
}

} // verus!
