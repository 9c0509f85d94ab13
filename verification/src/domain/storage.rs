//! The storage databases of running domains and the resources registered
//! for them: when a domain's entry is called, it takes over the database of
//! the domain it replaces or gets a fresh one, and that database is
//! registered as its resource.

use vstd::prelude::*;
use std::collections::BTreeMap;
use crate::domain::{source_of, storage_source, StorageSource};

verus! {

broadcast use {vstd::std_specs::btree::group_btree_axioms, vstd::laws_cmp::group_laws_cmp};

/// A table from domain ids to handles.
pub struct IdMap {
    entries: BTreeMap<u64, u64>,
}

impl View for IdMap {
    type V = Map<u64, u64>;

    closed spec fn view(&self) -> Map<u64, u64> {
        self.entries@
    }
}

impl IdMap {
    /// An empty table.
    pub fn new() -> (m: Self)
        ensures
            m@ == Map::<u64, u64>::empty(),
    {
        IdMap { entries: BTreeMap::new() }
    }

    /// The handle recorded for `id`.
    pub fn get(&self, id: u64) -> (r: Option<u64>)
        ensures
            r == (if self@.contains_key(id) { Some(self@[id]) } else { None }),
    {
        match self.entries.get(&id) {
            Some(v) => Some(*v),
            None => None,
        }
    }

    /// Records `v` for `id`, replacing what was recorded for it.
    pub fn insert(&mut self, id: u64, v: u64)
        ensures
            final(self)@ == old(self)@.insert(id, v),
    {
        let _ = self.entries.insert(id, v);
    }

    /// Forgets `id`.
    pub fn remove(&mut self, id: u64)
        ensures
            final(self)@ == old(self)@.remove(id),
    {
        let _ = self.entries.remove(&id);
    }
}

/// The storage bookkeeping as mathematical values.
pub struct StorageView {
    /// The database each domain id owns.
    pub databases: Map<u64, u64>,
    /// The resource registered for each domain id.
    pub resources: Map<u64, u64>,
    /// The handle the next fresh database gets.
    pub next_db: u64,
}

/// The databases of running domains and their registered resources.
pub struct DomainStorage {
    databases: IdMap,
    resources: IdMap,
    next_db: u64,
}

impl View for DomainStorage {
    type V = StorageView;

    closed spec fn view(&self) -> StorageView {
        StorageView { databases: self.databases@, resources: self.resources@, next_db: self.next_db }
    }
}

/// What `attach` needs: a database to take over exists; a fresh handle is
/// left.
pub open spec fn can_attach(s: StorageView, use_old_id: Option<u64>) -> bool {
    match source_of(use_old_id) {
        StorageSource::Move(o) => s.databases.contains_key(o),
        StorageSource::Create => s.next_db < u64::MAX,
    }
}

/// The storage after domain `id` is started, and the database
/// it gets: the database of the domain it replaces, re-keyed to `id`, or a
/// fresh one; either way registered as `id`'s resource.
pub open spec fn attach_next(s: StorageView, id: u64, use_old_id: Option<u64>) -> (StorageView, u64) {
    match source_of(use_old_id) {
        StorageSource::Move(o) => {
            let db = s.databases[o];
            (StorageView {
                databases: s.databases.remove(o).insert(id, db),
                resources: s.resources.insert(id, db),
                next_db: s.next_db,
            }, db)
        },
        StorageSource::Create => {
            let db = s.next_db;
            (StorageView {
                databases: s.databases.insert(id, db),
                resources: s.resources.insert(id, db),
                next_db: (s.next_db + 1) as u64,
            }, db)
        },
    }
}

impl DomainStorage {
    /// No databases and no resources.
    pub fn new() -> (s: Self)
        ensures
            s@ == (StorageView { databases: Map::empty(), resources: Map::empty(), next_db: 0 }),
    {
        DomainStorage { databases: IdMap::new(), resources: IdMap::new(), next_db: 0 }
    }

    /// The database domain `id` owns.
    pub fn database(&self, id: u64) -> (r: Option<u64>)
        ensures
            r == (if self@.databases.contains_key(id) { Some(self@.databases[id]) } else { None }),
    {
        self.databases.get(id)
    }

    /// The resource registered for domain `id`.
    pub fn resource(&self, id: u64) -> (r: Option<u64>)
        ensures
            r == (if self@.resources.contains_key(id) { Some(self@.resources[id]) } else { None }),
    {
        self.resources.get(id)
    }

    /// Gives domain `id` its storage when its entry is called:
    /// replacing a real domain `o` (`use_old_id` is `Some(o)`, `o` not the
    /// stand-in id `u64::MAX`), it takes over `o`'s database, which must
    /// exist (the kernel panics otherwise); otherwise a fresh database is
    /// created. The database is registered as `id`'s resource and returned.
    pub fn attach(&mut self, id: u64, use_old_id: Option<u64>) -> (db: u64)
        requires
            can_attach(old(self)@, use_old_id),
        ensures
            (final(self)@, db) == attach_next(old(self)@, id, use_old_id),
    {
        let db = match storage_source(use_old_id) {
            StorageSource::Move(o) => {
                let db = match self.databases.get(o) {
                    Some(d) => d,
                    None => 0,
                };
                self.databases.remove(o);
                self.databases.insert(id, db);
                db
            },
            StorageSource::Create => {
                let db = self.next_db;
                self.next_db = self.next_db + 1;
                self.databases.insert(id, db);
                db
            },
        };
        self.resources.insert(id, db);
        db
    }
}

} // verus!
