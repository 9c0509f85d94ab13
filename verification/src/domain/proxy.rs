//! The switch a domain proxy uses to replace its domain while callers keep
//! coming in.
//!
//! Callers enter the domain on a lock-free path, counted by a per-CPU
//! counter, as long as the lock path is off. To replace the domain, the
//! replacer takes the proxy's lock, turns the lock path on (new callers then
//! wait for the lock), waits until no caller is left on the lock-free path,
//! swaps in the new domain, turns the lock path off and releases the lock.
//! Entering is taken as one step here: the kernel makes it so by
//! synchronising all CPUs after turning the lock path on.

use vstd::prelude::*;

verus! {

/// Who holds the proxy's lock.
#[derive(Clone, Copy, Debug, PartialEq, Eq, Structural)]
pub enum LockHolder {
    /// Nobody.
    Nobody,
    /// A caller on the lock path.
    Caller,
    /// The replacer.
    Replacer,
}

/// How far a replacement has come.
#[derive(Clone, Copy, Debug, PartialEq, Eq, Structural)]
pub enum ReplacePhase {
    /// No replacement is running.
    Idle,
    /// The lock path is on; callers on the lock-free path are draining.
    Draining,
    /// No caller is inside the domain; the new domain can be initialised.
    Ready,
    /// The new domain is initialised; it can be swapped in.
    Initialised,
}

/// How a caller entered the domain.
#[derive(Clone, Copy, Debug, PartialEq, Eq, Structural)]
pub enum EnterPath {
    /// On the lock-free path, counted.
    Free,
    /// On the lock path, holding the lock.
    Locked,
    /// Not entered: the lock is taken; try again.
    Wait,
}

/// The switch as mathematical values.
pub struct SwitchView<L> {
    /// The lock path is on.
    pub lock_path: bool,
    /// Callers inside the domain on the lock-free path.
    pub free_callers: u64,
    /// Who holds the lock.
    pub lock: LockHolder,
    /// How far a replacement has come.
    pub phase: ReplacePhase,
    /// The id of the domain behind the proxy.
    pub domain_id: u64,
    /// The loader of the domain behind the proxy.
    pub loader: L,
    /// The proxy holds the arguments its domain was initialised with.
    pub args: bool,
}

/// The switch's invariant: the replacer holds the lock exactly while a
/// replacement runs, the lock path is on exactly then, and once callers
/// have drained (while the new domain is initialised and swapped in) no
/// caller is on the lock-free path.
pub open spec fn switch_inv<L>(s: SwitchView<L>) -> bool {
    &&& (s.phase != ReplacePhase::Idle) == (s.lock == LockHolder::Replacer)
    &&& (s.phase != ReplacePhase::Idle) == s.lock_path
    &&& (s.phase == ReplacePhase::Ready || s.phase == ReplacePhase::Initialised) ==> s.free_callers == 0
}

/// The switch of a domain proxy, which also holds the loader of the domain
/// behind it.
pub struct ProxySwitch<L> {
    lock_path: bool,
    free_callers: u64,
    lock: LockHolder,
    phase: ReplacePhase,
    domain_id: u64,
    loader: L,
    args: bool,
}

impl<L> View for ProxySwitch<L> {
    type V = SwitchView<L>;

    closed spec fn view(&self) -> SwitchView<L> {
        SwitchView {
            lock_path: self.lock_path,
            free_callers: self.free_callers,
            lock: self.lock,
            phase: self.phase,
            domain_id: self.domain_id,
            loader: self.loader,
            args: self.args,
        }
    }
}

impl<L> ProxySwitch<L> {
    /// A switch in front of domain `domain_id` loaded by `loader`, with
    /// nobody inside and no initialisation arguments held.
    pub fn new(domain_id: u64, loader: L) -> (s: Self)
        ensures
            s@ == (SwitchView {
                lock_path: false,
                free_callers: 0,
                lock: LockHolder::Nobody,
                phase: ReplacePhase::Idle,
                domain_id,
                loader,
                args: false,
            }),
            switch_inv(s@),
    {
        ProxySwitch {
            lock_path: false,
            free_callers: 0,
            lock: LockHolder::Nobody,
            phase: ReplacePhase::Idle,
            domain_id,
            loader,
            args: false,
        }
    }

    /// The loader of the domain behind the proxy.
    pub fn loader(&self) -> (r: &L)
        ensures
            *r == self@.loader,
    {
        &self.loader
    }

    /// Whether the proxy holds initialisation arguments.
    pub fn has_args(&self) -> (r: bool)
        ensures
            r == self@.args,
    {
        self.args
    }

    /// The domain was initialised with arguments, which the proxy keeps for
    /// the domains that replace it.
    pub fn record_args(&mut self)
        ensures
            final(self)@ == (SwitchView { args: true, ..old(self)@ }),
    {
        self.args = true;
    }

    /// The id of the domain behind the proxy.
    pub fn domain_id(&self) -> (r: u64)
        ensures
            r == self@.domain_id,
    {
        self.domain_id
    }

    /// Whether calls take the lock path.
    pub fn lock_path(&self) -> (r: bool)
        ensures
            r == self@.lock_path,
    {
        self.lock_path
    }

    /// A caller enters the domain: with the lock path off it is counted on
    /// the lock-free path; with the lock path on it takes the lock if free,
    /// and otherwise has to wait.
    pub fn enter(&mut self) -> (p: EnterPath)
        requires
            switch_inv(old(self)@),
            old(self)@.free_callers < u64::MAX,
        ensures
            switch_inv(final(self)@),
            !old(self)@.lock_path ==> p == EnterPath::Free && final(self)@ == (SwitchView {
                free_callers: (old(self)@.free_callers + 1) as u64,
                ..old(self)@
            }),
            old(self)@.lock_path && old(self)@.lock == LockHolder::Nobody ==> p == EnterPath::Locked
                && final(self)@ == (SwitchView { lock: LockHolder::Caller, ..old(self)@ }),
            old(self)@.lock_path && old(self)@.lock != LockHolder::Nobody ==> p == EnterPath::Wait
                && final(self)@ == old(self)@,
    {
        if !self.lock_path {
            self.free_callers = self.free_callers + 1;
            EnterPath::Free
        } else if self.lock == LockHolder::Nobody {
            self.lock = LockHolder::Caller;
            EnterPath::Locked
        } else {
            EnterPath::Wait
        }
    }

    /// A caller that entered on `path` leaves the domain.
    pub fn leave(&mut self, path: EnterPath)
        requires
            switch_inv(old(self)@),
            path == EnterPath::Free ==> old(self)@.free_callers > 0,
            path == EnterPath::Locked ==> old(self)@.lock == LockHolder::Caller,
        ensures
            switch_inv(final(self)@),
            path == EnterPath::Free ==> final(self)@ == (SwitchView {
                free_callers: (old(self)@.free_callers - 1) as u64,
                ..old(self)@
            }),
            path == EnterPath::Locked ==> final(self)@ == (SwitchView { lock: LockHolder::Nobody, ..old(self)@ }),
            path == EnterPath::Wait ==> final(self)@ == old(self)@,
    {
        match path {
            EnterPath::Free => {
                self.free_callers = self.free_callers - 1;
            },
            EnterPath::Locked => {
                self.lock = LockHolder::Nobody;
            },
            EnterPath::Wait => {},
        }
    }

    /// Starts replacing the domain: the replacer takes the lock and turns the
    /// lock path on; while a caller holds the lock, nothing happens and
    /// `false` is returned.
    pub fn begin_replace(&mut self) -> (started: bool)
        requires
            switch_inv(old(self)@),
            old(self)@.phase == ReplacePhase::Idle,
        ensures
            switch_inv(final(self)@),
            started == (old(self)@.lock == LockHolder::Nobody),
            started ==> final(self)@ == (SwitchView {
                lock_path: true,
                lock: LockHolder::Replacer,
                phase: ReplacePhase::Draining,
                ..old(self)@
            }),
            !started ==> final(self)@ == old(self)@,
    {
        if self.lock != LockHolder::Nobody {
            return false;
        }
        self.lock = LockHolder::Replacer;
        self.lock_path = true;
        self.phase = ReplacePhase::Draining;
        true
    }

    /// Checks whether every caller has left the lock-free path; if so, the
    /// domain is ready to be swapped.
    pub fn drained(&mut self) -> (ready: bool)
        requires
            switch_inv(old(self)@),
            old(self)@.phase == ReplacePhase::Draining,
        ensures
            switch_inv(final(self)@),
            ready == (old(self)@.free_callers == 0),
            ready ==> final(self)@ == (SwitchView { phase: ReplacePhase::Ready, ..old(self)@ }),
            !ready ==> final(self)@ == old(self)@,
    {
        if self.free_callers == 0 {
            self.phase = ReplacePhase::Ready;
            true
        } else {
            false
        }
    }

    /// The new domain has been initialised, once, while no caller is inside
    /// (a block device domain with the arguments the proxy holds, which must
    /// be there: the kernel panics without them). It can now be swapped in.
    pub fn initialised(&mut self, with_args: bool)
        requires
            switch_inv(old(self)@),
            old(self)@.phase == ReplacePhase::Ready,
            with_args ==> old(self)@.args,
        ensures
            switch_inv(final(self)@),
            final(self)@ == (SwitchView { phase: ReplacePhase::Initialised, ..old(self)@ }),
    {
        self.phase = ReplacePhase::Initialised;
    }

    /// Swaps in the initialised domain `new_id` and its loader, turns the
    /// lock path off and releases the lock; gives back the id of the domain
    /// that was swapped out, whose resources are then freed, and its loader.
    pub fn swap(&mut self, new_id: u64, new_loader: L) -> (r: (u64, L))
        requires
            switch_inv(old(self)@),
            old(self)@.phase == ReplacePhase::Initialised,
        ensures
            switch_inv(final(self)@),
            r.0 == old(self)@.domain_id,
            r.1 == old(self)@.loader,
            final(self)@ == (SwitchView {
                lock_path: false,
                free_callers: 0,
                lock: LockHolder::Nobody,
                phase: ReplacePhase::Idle,
                domain_id: new_id,
                loader: new_loader,
                args: old(self)@.args,
            }),
    {
        let old_id = self.domain_id;
        let mut old_loader = new_loader;
        std::mem::swap(&mut self.loader, &mut old_loader);
        self.domain_id = new_id;
        self.lock_path = false;
        self.lock = LockHolder::Nobody;
        self.phase = ReplacePhase::Idle;
        (old_id, old_loader)
    }
}

/// A domain is swapped out only when no caller is inside it: when the
/// switch is ready to swap, no caller is on the lock-free path and the
/// replacer, not a caller, holds the lock.
pub proof fn lemma_swap_only_when_empty<L>(s: SwitchView<L>)
    requires
        switch_inv(s),
        s.phase == ReplacePhase::Initialised,
    ensures
        s.free_callers == 0,
        s.lock == LockHolder::Replacer,
{
}

/// While a replacement runs, no caller can get onto the lock-free path, so
/// the number of callers there never grows.
pub proof fn lemma_no_new_free_callers<L>(s: SwitchView<L>)
    requires
        switch_inv(s),
        s.phase != ReplacePhase::Idle,
    ensures
        s.lock_path,
{
}

} // verus!
