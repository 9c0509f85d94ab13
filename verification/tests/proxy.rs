use kernel_tcb::domain::proxy::{EnterPath, ProxySwitch};

#[test]
fn callers_use_the_free_path_when_idle() {
    let mut s = ProxySwitch::new(3, "old");
    assert_eq!(s.enter(), EnterPath::Free);
    assert_eq!(s.enter(), EnterPath::Free);
    s.leave(EnterPath::Free);
    s.leave(EnterPath::Free);
    assert_eq!(s.domain_id(), 3);
    assert!(!s.lock_path());
}

#[test]
fn replacement_waits_for_callers_then_swaps() {
    let mut s = ProxySwitch::new(3, "old");
    assert_eq!(s.enter(), EnterPath::Free);
    assert!(s.begin_replace());
    assert!(s.lock_path());
    // New callers wait while the replacer holds the lock.
    assert_eq!(s.enter(), EnterPath::Wait);
    assert!(!s.drained());
    s.leave(EnterPath::Free);
    assert!(s.drained());
    s.initialised(false);
    assert_eq!(s.swap(8, "new"), (3, "old"));
    assert_eq!(s.domain_id(), 8);
    assert_eq!(*s.loader(), "new");
    assert!(!s.lock_path());
    assert_eq!(s.enter(), EnterPath::Free);
}

#[test]
fn block_proxies_keep_their_arguments() {
    let mut s = ProxySwitch::new(1, 10u32);
    assert!(!s.has_args());
    s.record_args();
    assert!(s.has_args());
    assert!(s.begin_replace());
    assert!(s.drained());
    s.initialised(true);
    assert_eq!(s.swap(2, 20), (1, 10));
    assert!(s.has_args());
    assert_eq!(*s.loader(), 20);
}
