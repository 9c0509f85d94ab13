//! The domains loaded through the command channel, by name, and the block
//! device shims that expose them: what a load adds and an unload removes.

use vstd::prelude::*;
use crate::assoc::{assoc_map, lookup, first_at, lemma_lookup_first, lemma_lookup_none, lemma_lookup_update, lemma_lookup_push, lemma_lookup_remove_first};
use crate::domain::{unload_domain_check, DomainKind};
use crate::error::{Error, KernelResult};

verus! {

/// A table from names to domain kinds.
pub struct NameTable {
    entries: Vec<(String, DomainKind)>,
}

impl NameTable {
    spec fn entry_seq(&self) -> Seq<(Seq<char>, DomainKind)> {
        self.entries@.map_values(|e: (String, DomainKind)| (e.0@, e.1))
    }
}

impl View for NameTable {
    type V = Map<Seq<char>, DomainKind>;

    closed spec fn view(&self) -> Map<Seq<char>, DomainKind> {
        assoc_map(self.entry_seq())
    }
}

impl NameTable {
    /// An empty table.
    pub fn new() -> (t: Self)
        ensures
            t@ == Map::<Seq<char>, DomainKind>::empty(),
    {
        let t = NameTable { entries: Vec::new() };
        assert(t@ =~= Map::<Seq<char>, DomainKind>::empty());
        t
    }

    fn find(&self, name: &String) -> (r: Option<usize>)
        ensures
            match r {
                Some(i) => first_at(self.entry_seq(), name@, i as int),
                None => forall|j: int| 0 <= j < self.entry_seq().len() ==> #[trigger] self.entry_seq()[j].0 != name@,
            },
    {
        let mut i: usize = 0;
        while i < self.entries.len()
            invariant
                i <= self.entries.len(),
                forall|j: int| 0 <= j < i ==> #[trigger] self.entry_seq()[j].0 != name@,
            decreases self.entries.len() - i,
        {
            if self.entries[i].0 == *name {
                return Some(i);
            }
            i = i + 1;
        }
        None
    }

    /// The kind recorded under `name`.
    pub fn get(&self, name: &str) -> (r: Option<DomainKind>)
        ensures
            r == (if self@.contains_key(name@) { Some(self@[name@]) } else { None }),
    {
        let key = name.to_owned();
        match self.find(&key) {
            Some(i) => {
                proof { lemma_lookup_first(self.entry_seq(), name@, i as int); }
                Some(self.entries[i].1)
            },
            None => {
                proof { lemma_lookup_none(self.entry_seq(), name@); }
                None
            },
        }
    }

    /// Records `ty` under `name`, replacing what was recorded there.
    pub fn insert(&mut self, name: &str, ty: DomainKind)
        ensures
            final(self)@ == old(self)@.insert(name@, ty),
    {
        let ghost old_seq = self.entry_seq();
        let key = name.to_owned();
        match self.find(&key) {
            Some(i) => {
                self.entries.set(i, (key, ty));
                proof {
                    assert(self.entry_seq() =~= old_seq.update(i as int, (name@, ty)));
                    assert forall|k: Seq<char>| #[trigger] lookup(self.entry_seq(), k) == (if k == name@ {
                        Some(ty)
                    } else {
                        lookup(old_seq, k)
                    }) by {
                        lemma_lookup_update(old_seq, name@, i as int, ty, k);
                    }
                    assert(assoc_map(self.entry_seq()) =~= assoc_map(old_seq).insert(name@, ty));
                }
            },
            None => {
                proof { lemma_lookup_none(old_seq, name@); }
                self.entries.push((key, ty));
                proof {
                    assert(self.entry_seq() =~= old_seq.push((name@, ty)));
                    assert forall|k: Seq<char>| #[trigger] lookup(self.entry_seq(), k) == (if k == name@ {
                        Some(ty)
                    } else {
                        lookup(old_seq, k)
                    }) by {
                        lemma_lookup_push(old_seq, (name@, ty), k);
                    }
                    assert(assoc_map(self.entry_seq()) =~= assoc_map(old_seq).insert(name@, ty));
                }
            },
        }
    }

    /// Forgets `name`.
    pub fn remove(&mut self, name: &str)
        ensures
            final(self)@ == old(self)@.remove(name@),
    {
        let ghost old_seq = self.entry_seq();
        let key = name.to_owned();
        loop
            invariant
                key@ == name@,
                forall|k: Seq<char>| k != name@ ==> #[trigger] lookup(self.entry_seq(), k) == lookup(old_seq, k),
            ensures
                lookup(self.entry_seq(), name@) is None,
                forall|k: Seq<char>| k != name@ ==> #[trigger] lookup(self.entry_seq(), k) == lookup(old_seq, k),
            decreases self.entries.len(),
        {
            match self.find(&key) {
                Some(i) => {
                    let ghost before = self.entry_seq();
                    let _ = self.entries.remove(i);
                    proof {
                        assert(self.entry_seq() =~= before.remove(i as int));
                        assert forall|k: Seq<char>| k != name@ implies #[trigger] lookup(self.entry_seq(), k) == lookup(old_seq, k) by {
                            lemma_lookup_remove_first(before, name@, i as int, k);
                        }
                    }
                },
                None => {
                    proof { lemma_lookup_none(self.entry_seq(), name@); }
                    break;
                },
            }
        }
        assert(assoc_map(self.entry_seq()) =~= assoc_map(old_seq).remove(name@));
    }
}

/// The loaded domains and their shims as mathematical values.
pub struct LoadedView {
    /// The kind of each registered domain, by name.
    pub domains: Map<Seq<char>, DomainKind>,
    /// The kind of the domain behind each shim, by name.
    pub shims: Map<Seq<char>, DomainKind>,
}

/// The domains registered by name, and the shims exposing them.
pub struct LoadedDomains {
    domains: NameTable,
    shims: NameTable,
}

impl View for LoadedDomains {
    type V = LoadedView;

    closed spec fn view(&self) -> LoadedView {
        LoadedView { domains: self.domains@, shims: self.shims@ }
    }
}

impl LoadedDomains {
    /// Nothing loaded.
    pub fn new() -> (l: Self)
        ensures
            l@ == (LoadedView { domains: Map::empty(), shims: Map::empty() }),
    {
        LoadedDomains { domains: NameTable::new(), shims: NameTable::new() }
    }

    /// The kind of the domain registered under `name`.
    pub fn domain(&self, name: &str) -> (r: Option<DomainKind>)
        ensures
            r == (if self@.domains.contains_key(name@) { Some(self@.domains[name@]) } else { None }),
    {
        self.domains.get(name)
    }

    /// Whether a shim exposes a domain under `name`.
    pub fn has_shim(&self, name: &str) -> (r: bool)
        ensures
            r == self@.shims.contains_key(name@),
    {
        self.shims.get(name).is_some()
    }

    /// The end of a successful load: the block device domain is
    /// registered under `ident` and the shim that exposes it is recorded
    /// under the same name.
    pub fn record_load(&mut self, ident: &str)
        ensures
            final(self)@ == (LoadedView {
                domains: old(self)@.domains.insert(ident@, DomainKind::BlockDeviceDomain),
                shims: old(self)@.shims.insert(ident@, DomainKind::BlockDeviceDomain),
            }),
    {
        self.domains.insert(ident, DomainKind::BlockDeviceDomain);
        self.shims.insert(ident, DomainKind::BlockDeviceDomain);
    }

    /// Unloads a domain, given the reference count of the domain running
    /// under `ident` (none when none runs): an unknown domain gives
    /// `ENOENT` and one still in use (more than two references) gives
    /// `EBUSY`, changing nothing; otherwise the domain is unregistered and
    /// its shim removed.
    pub fn unload(&mut self, ident: &str, ref_count: Option<usize>) -> (r: KernelResult<()>)
        ensures
            ref_count is None ==> r == Err::<(), Error>(Error::NoEnt) && final(self)@ == old(self)@,
            ref_count matches Some(c) && c > 2 ==> r == Err::<(), Error>(Error::Busy) && final(self)@ == old(self)@,
            ref_count matches Some(c) && c <= 2 ==> r is Ok && final(self)@ == (LoadedView {
                domains: old(self)@.domains.remove(ident@),
                shims: old(self)@.shims.remove(ident@),
            }),
    {
        match unload_domain_check(ref_count) {
            Err(e) => Err(e),
            Ok(()) => {
                self.domains.remove(ident);
                self.shims.remove(ident);
                Ok(())
            },
        }
    }
}

} // verus!
