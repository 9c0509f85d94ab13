//! The table of running domains: for each domain id, the name it runs under,
//! its kind, how often it panicked and the image file it was built from.

use vstd::prelude::*;
use std::collections::BTreeMap;
use crate::domain::DomainKind;
use crate::domain::registry::{FileInfo, FileView};

verus! {

/// What is recorded about a running domain.
pub struct DomainDataInfo {
    pub name: String,
    pub ty: DomainKind,
    pub panic_count: usize,
    pub file_info: FileInfo,
}

/// A [`DomainDataInfo`] as mathematical values.
pub struct DomainDataView {
    pub name: Seq<char>,
    pub ty: DomainKind,
    pub panic_count: usize,
    pub file_info: FileView,
}

impl View for DomainDataInfo {
    type V = DomainDataView;

    open spec fn view(&self) -> DomainDataView {
        DomainDataView {
            name: self.name@,
            ty: self.ty,
            panic_count: self.panic_count,
            file_info: self.file_info@,
        }
    }
}

broadcast use {vstd::std_specs::btree::group_btree_axioms, vstd::laws_cmp::group_laws_cmp};

/// The table of running domains.
pub struct DomainInfoTable {
    domains: BTreeMap<u64, DomainDataInfo>,
}

impl View for DomainInfoTable {
    type V = Map<u64, DomainDataView>;

    closed spec fn view(&self) -> Map<u64, DomainDataView> {
        self.domains@.map_values(|v: DomainDataInfo| v@)
    }
}

impl DomainInfoTable {
    /// An empty table.
    pub fn new() -> (t: Self)
        ensures
            t@ == Map::<u64, DomainDataView>::empty(),
    {
        let t = DomainInfoTable { domains: BTreeMap::new() };
        assert(t@ =~= Map::<u64, DomainDataView>::empty());
        t
    }

    /// Records `info` for domain `id`, replacing what was recorded for it.
    pub fn insert(&mut self, id: u64, info: DomainDataInfo)
        ensures
            final(self)@ == old(self)@.insert(id, info@),
    {
        let ghost v = info@;
        let _ = self.domains.insert(id, info);
        assert(self@ =~= old(self)@.insert(id, v));
    }

    /// Forgets domain `id`.
    pub fn remove(&mut self, id: u64)
        ensures
            final(self)@ == old(self)@.remove(id),
    {
        let _ = self.domains.remove(&id);
        assert(self@ =~= old(self)@.remove(id));
    }

    /// How often domain `id` panicked, if it is recorded.
    pub fn panic_count(&self, id: u64) -> (r: Option<usize>)
        ensures
            r == (if self@.contains_key(id) { Some(self@[id].panic_count) } else { None }),
    {
        match self.domains.get(&id) {
            Some(info) => Some(info.panic_count),
            None => None,
        }
    }

    /// Counts a panic of domain `id`; an unknown id changes nothing.
    pub fn record_panic(&mut self, id: u64)
        requires
            old(self)@.contains_key(id) ==> old(self)@[id].panic_count < usize::MAX,
        ensures
            old(self)@.contains_key(id) ==> final(self)@ == old(self)@.insert(
                id,
                DomainDataView { panic_count: (old(self)@[id].panic_count + 1) as usize, ..old(self)@[id] },
            ),
            !old(self)@.contains_key(id) ==> final(self)@ == old(self)@,
    {
        match self.domains.remove(&id) {
            Some(mut info) => {
                let ghost v = DomainDataView { panic_count: (info.panic_count + 1) as usize, ..info@ };
                info.panic_count = info.panic_count + 1;
                let _ = self.domains.insert(id, info);
                assert(self@ =~= old(self)@.insert(id, v));
            },
            None => {
                assert(self.domains@ =~= old(self).domains@);
            },
        }
    }

    /// Moves the record of a replaced domain to the id of its successor
    /// (the end of an update): the old id is forgotten, the new id
    /// gets `info`.
    pub fn replace_entry(&mut self, old_id: u64, new_id: u64, info: DomainDataInfo)
        ensures
            final(self)@ == old(self)@.remove(old_id).insert(new_id, info@),
    {
        self.remove(old_id);
        self.insert(new_id, info);
    }

    /// The record of a domain that replaced the one running under `old_name`
    /// by a new image: it runs under the old name, with kind `ty`, no
    /// panics yet, and the file information of its new image; it is recorded
    /// under the new id and the old id is forgotten.
    pub fn finish_update(&mut self, old_id: u64, new_id: u64, old_name: &str, ty: DomainKind, file_info: FileInfo)
        ensures
            final(self)@ == old(self)@.remove(old_id).insert(
                new_id,
                DomainDataView { name: old_name@, ty, panic_count: 0, file_info: file_info@ },
            ),
    {
        let info = DomainDataInfo { name: old_name.to_owned(), ty, panic_count: 0, file_info };
        self.replace_entry(old_id, new_id, info);
    }
}

/// After a domain is replaced, its old id is no longer in the table (unless
/// the successor reuses it) and the successor's id maps to the new record;
/// every other domain keeps its record.
pub proof fn lemma_replace_moves_record(t: Map<u64, DomainDataView>, old_id: u64, new_id: u64, info: DomainDataView, other: u64)
    requires
        other != old_id,
        other != new_id,
    ensures
        t.remove(old_id).insert(new_id, info)[new_id] == info,
        old_id != new_id ==> !t.remove(old_id).insert(new_id, info).contains_key(old_id),
        t.remove(old_id).insert(new_id, info).contains_key(other) == t.contains_key(other),
        t.contains_key(other) ==> t.remove(old_id).insert(new_id, info)[other] == t[other],
{
}

} // verus!
