//! Domains: the kinds of replaceable components the framework hosts, their
//! registry, the table of running domains and the stand-ins used when no
//! domain image is available.

use vstd::prelude::*;
use crate::error::{Error, KernelResult};
use crate::loader::{DomainLoader, LoaderView};

pub mod empty;
pub mod registry;
pub mod info;
pub mod frames;
pub mod proxy;
pub mod storage;
pub mod loaded;

verus! {

/// The kinds of domain the framework hosts.
#[derive(Clone, Copy, Debug, PartialEq, Eq, Structural)]
pub enum DomainKind {
    /// A logging domain.
    LogDomain,
    /// A test device that echoes reads and writes.
    EmptyDeviceDomain,
    /// A block device (the null block driver).
    BlockDeviceDomain,
    /// An NVMe block device.
    NvmeBlockDeviceDomain,
}

/// Whether a running domain may be unloaded, given its reference count (none
/// when no such domain runs): an unknown domain gives `ENOENT`, one with more
/// than two references (the registry's and the caller's) gives `EBUSY`.
pub fn unload_domain_check(ref_count: Option<usize>) -> (r: KernelResult<()>)
    ensures
        ref_count is None ==> r == Err::<(), Error>(Error::NoEnt),
        ref_count matches Some(c) && c > 2 ==> r == Err::<(), Error>(Error::Busy),
        ref_count matches Some(c) && c <= 2 ==> r is Ok,
{
    match ref_count {
        None => Err(Error::NoEnt),
        Some(c) => {
            if c > 2 {
                Err(Error::Busy)
            } else {
                Ok(())
            }
        },
    }
}

/// Whether a domain of kind `ty` can be loaded through the channel: only
/// block device domains can; any other kind gives `EINVAL`.
pub fn load_domain_check(ty: DomainKind) -> (r: KernelResult<()>)
    ensures
        ty == DomainKind::BlockDeviceDomain ==> r is Ok,
        ty != DomainKind::BlockDeviceDomain ==> r == Err::<(), Error>(Error::Inval),
{
    match ty {
        DomainKind::BlockDeviceDomain => Ok(()),
        _ => Err(Error::Inval),
    }
}

/// The kind of proxy whose domain an update replaces, given the
/// kind of the running domain of the old name (none if no domain runs under
/// it): an unknown name gives `EINVAL`. NVMe domains cannot be replaced.
pub fn update_domain_target(running: Option<DomainKind>) -> (r: KernelResult<DomainKind>)
    requires
        running != Some(DomainKind::NvmeBlockDeviceDomain),
    ensures
        running matches Some(k) ==> r == Ok::<DomainKind, Error>(k),
        running is None ==> r == Err::<DomainKind, Error>(Error::Inval),
{
    match running {
        Some(k) => Ok(k),
        None => Err(Error::Inval),
    }
}

/// Reloading a domain under a name under which none runs: `EINVAL`.
/// (Reloading a running domain is not supported.)
pub fn reload_domain_check(found: bool) -> (r: KernelResult<()>)
    requires
        !found,
    ensures
        r == Err::<(), Error>(Error::Inval),
{
    Err(Error::Inval)
}

/// Where a new domain's storage comes from when its entry is called.
#[derive(Clone, Copy, Debug, PartialEq, Eq, Structural)]
pub enum StorageSource {
    /// Take over the storage of the domain with this id (the one replaced).
    Move(u64),
    /// Create fresh storage.
    Create,
}

/// Where the storage of a new domain comes from: when it replaces a real
/// domain (not a stand-in, whose id is `u64::MAX`) it takes over that
/// domain's storage; otherwise fresh storage is created.
pub open spec fn source_of(use_old_id: Option<u64>) -> StorageSource {
    match use_old_id {
        Some(prev) => if prev != u64::MAX {
            StorageSource::Move(prev)
        } else {
            StorageSource::Create
        },
        None => StorageSource::Create,
    }
}

/// The storage a new domain gets when its entry is called, as
/// [`source_of`] states.
pub fn storage_source(use_old_id: Option<u64>) -> (r: StorageSource)
    ensures
        r == source_of(use_old_id),
{
    match use_old_id {
        Some(prev) => {
            if prev != u64::MAX {
                StorageSource::Move(prev)
            } else {
                StorageSource::Create
            }
        },
        None => StorageSource::Create,
    }
}

/// What happens to the data a replaced domain shared.
#[derive(Clone, Copy, Debug, PartialEq, Eq, Structural)]
pub enum FreeShared {
    /// Free it with the domain.
    Free,
    /// Keep it: the domain with this id goes on using it.
    NotFree(u64),
}

/// What a replacement frees along with the old domain: a logging domain's
/// shared data is freed; the device domains hand theirs on to the new
/// domain `new_id`.
pub fn free_policy(kind: DomainKind, new_id: u64) -> (r: FreeShared)
    ensures
        kind == DomainKind::LogDomain ==> r == FreeShared::Free,
        kind != DomainKind::LogDomain ==> r == FreeShared::NotFree(new_id),
{
    match kind {
        DomainKind::LogDomain => FreeShared::Free,
        _ => FreeShared::NotFree(new_id),
    }
}


/// How far replacing a running domain by a new image has come
/// by a new image.
#[derive(Clone, Copy, Debug, PartialEq, Eq)]
pub enum UpdateState {
    /// Nothing done yet.
    Start,
    /// The domain running under the old name is being looked up.
    Querying,
    /// The new domain is being created for the proxy of this kind, taking
    /// over from the domain with this id.
    Creating(DomainKind, u64),
    /// The proxy of this kind is swapping the domain with the first id for
    /// the new one with the second id.
    Replacing(DomainKind, u64, u64),
    /// The record of the old id is being moved to the new id.
    Recording(u64, u64),
    /// Finished, with this result.
    Done(KernelResult<()>),
}

/// What the kernel reported for the last action.
#[derive(Clone, Copy, Debug, PartialEq, Eq)]
pub enum UpdateEvent {
    /// Begin.
    Go,
    /// The lookup found a domain of this kind and id, or none.
    Found(Option<(DomainKind, u64)>),
    /// The new domain (or its stand-in) was created with this id.
    Created(u64),
    /// The proxy's `replace` returned this.
    Replaced(KernelResult<()>),
    /// The record was moved.
    Recorded,
}

/// What is to be done next.
#[derive(Clone, Copy, Debug, PartialEq, Eq)]
pub enum UpdateAction {
    /// Look up the domain running under the old name.
    Query,
    /// Create the new domain for a proxy of this kind, with the old domain's
    /// id as the one whose storage it may take over.
    Create(DomainKind, u64),
    /// Let the proxy of this kind replace its domain by the new one.
    Replace(DomainKind),
    /// Move the record of the old id to the new id (see
    /// `DomainInfoTable::finish_update`).
    Record(u64, u64),
    /// Nothing: the state is final.
    Nothing,
}

/// The state and action that follow `state` on `event` when a domain is
/// replaced. A name under which no domain runs gives `EINVAL`; an error of
/// the proxy's `replace` ends the update with that error and leaves the
/// record alone.
pub open spec fn update_next(state: UpdateState, event: UpdateEvent) -> (UpdateState, UpdateAction) {
    match (state, event) {
        (UpdateState::Start, UpdateEvent::Go) => (UpdateState::Querying, UpdateAction::Query),
        (UpdateState::Querying, UpdateEvent::Found(found)) => match found {
            None => (UpdateState::Done(Err(Error::Inval)), UpdateAction::Nothing),
            Some((k, old_id)) => (UpdateState::Creating(k, old_id), UpdateAction::Create(k, old_id)),
        },
        (UpdateState::Creating(k, old_id), UpdateEvent::Created(new_id)) => (
            UpdateState::Replacing(k, old_id, new_id),
            UpdateAction::Replace(k),
        ),
        (UpdateState::Replacing(_, old_id, new_id), UpdateEvent::Replaced(res)) => match res {
            Err(e) => (UpdateState::Done(Err(e)), UpdateAction::Nothing),
            Ok(()) => (UpdateState::Recording(old_id, new_id), UpdateAction::Record(old_id, new_id)),
        },
        (UpdateState::Recording(_, _), UpdateEvent::Recorded) => (UpdateState::Done(Ok(())), UpdateAction::Nothing),
        _ => (state, UpdateAction::Nothing),
    }
}

/// The kernel does not replace NVMe domains: it panics when the lookup
/// finds one.
pub open spec fn update_supported(state: UpdateState, event: UpdateEvent) -> bool {
    !(state == UpdateState::Querying && (event matches UpdateEvent::Found(Some((k, _))) && k
        == DomainKind::NvmeBlockDeviceDomain))
}

/// One step of updating a running domain: the state and action that follow
/// `state` when `event` is reported. An event that does not answer the
/// state's pending action changes nothing.
pub fn update_domain_step(state: UpdateState, event: UpdateEvent) -> (r: (UpdateState, UpdateAction))
    requires
        update_supported(state, event),
    ensures
        r == update_next(state, event),
{
    match (state, event) {
        (UpdateState::Start, UpdateEvent::Go) => (UpdateState::Querying, UpdateAction::Query),
        (UpdateState::Querying, UpdateEvent::Found(found)) => {
            let running = match found {
                Some((k, _)) => Some(k),
                None => None,
            };
            match update_domain_target(running) {
                Err(e) => (UpdateState::Done(Err(e)), UpdateAction::Nothing),
                Ok(k) => {
                    let old_id = match found {
                        Some((_, id)) => id,
                        None => 0,
                    };
                    (UpdateState::Creating(k, old_id), UpdateAction::Create(k, old_id))
                },
            }
        },
        (UpdateState::Creating(k, old_id), UpdateEvent::Created(new_id)) => (
            UpdateState::Replacing(k, old_id, new_id),
            UpdateAction::Replace(k),
        ),
        (UpdateState::Replacing(_, old_id, new_id), UpdateEvent::Replaced(res)) => match res {
            Err(e) => (UpdateState::Done(Err(e)), UpdateAction::Nothing),
            Ok(()) => (UpdateState::Recording(old_id, new_id), UpdateAction::Record(old_id, new_id)),
        },
        (UpdateState::Recording(_, _), UpdateEvent::Recorded) => (UpdateState::Done(Ok(())), UpdateAction::Nothing),
        _ => (state, UpdateAction::Nothing),
    }
}

/// An update goes to the proxy of the running domain's kind: when the
/// lookup finds a running domain of kind `k` (not NVMe) with id `old_id`,
/// the successor is created for a proxy of kind `k` taking over from
/// `old_id`; once created with id `new_id`, the proxy of kind `k` replaces
/// its domain; when that succeeds the record moves from `old_id` to
/// `new_id`, and the update ends in success.
pub proof fn lemma_update_follows_running_kind(k: DomainKind, old_id: u64, new_id: u64)
    requires
        k != DomainKind::NvmeBlockDeviceDomain,
    ensures
        ({
            let (s1, a1) = update_next(UpdateState::Start, UpdateEvent::Go);
            let (s2, a2) = update_next(s1, UpdateEvent::Found(Some((k, old_id))));
            let (s3, a3) = update_next(s2, UpdateEvent::Created(new_id));
            let (s4, a4) = update_next(s3, UpdateEvent::Replaced(Ok(())));
            let (s5, a5) = update_next(s4, UpdateEvent::Recorded);
            &&& a1 == UpdateAction::Query
            &&& update_supported(s1, UpdateEvent::Found(Some((k, old_id))))
            &&& a2 == UpdateAction::Create(k, old_id)
            &&& s2 == UpdateState::Creating(k, old_id)
            &&& a3 == UpdateAction::Replace(k)
            &&& a4 == UpdateAction::Record(old_id, new_id)
            &&& s5 == UpdateState::Done(Ok(()))
            &&& a5 == UpdateAction::Nothing
        }),
{
}

/// A successful update always ends by moving the record of the replaced
/// domain to its successor, and only after the proxy replaced the domain:
/// from the replacing state, success leads to recording exactly the old and
/// new ids; an error of the proxy ends the update without touching the
/// record.
pub proof fn lemma_update_records_after_replace(k: DomainKind, old_id: u64, new_id: u64, res: KernelResult<()>)
    ensures
        res is Ok ==> update_next(UpdateState::Replacing(k, old_id, new_id), UpdateEvent::Replaced(res))
            == (UpdateState::Recording(old_id, new_id), UpdateAction::Record(old_id, new_id)),
        res matches Err(e) ==> update_next(UpdateState::Replacing(k, old_id, new_id), UpdateEvent::Replaced(res))
            == (UpdateState::Done(Err::<(), Error>(e)), UpdateAction::Nothing),
{
}


/// The domain a proxy gets when a domain is created for it: the created
/// domain's id and loader, or, when no domain could be created (no image
/// of that name and kind), the stand-in: id `u64::MAX` and a loader with no
/// image named `empty_loader`.
pub fn domain_or_empty(created: Option<(u64, DomainLoader)>) -> (r: (u64, DomainLoader))
    ensures
        match created {
            Some((id, l)) => r.0 == id && r.1@ == l@,
            None => r.0 == u64::MAX && r.1@ == (LoaderView {
                entry_point: 0,
                data: Seq::empty(),
                virt_start: 0,
                ident: "empty_loader"@,
                text_section: (0, 0),
            }),
        },
{
    match created {
        Some((id, l)) => (id, l),
        None => (u64::MAX, DomainLoader::empty()),
    }
}

} // verus!
