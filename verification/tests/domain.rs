use kernel_tcb::domain::empty::{
    BlockDeviceDomainEmptyImpl, EmptyDeviceDomainEmptyImpl, LogDomainEmptyImpl, NvmeDeviceDomainEmptyImpl,
};
use kernel_tcb::domain::frames::{frame_number, frame_request, FRAME_SIZE};
use kernel_tcb::domain::info::{DomainDataInfo, DomainInfoTable};
use kernel_tcb::domain::loaded::LoadedDomains;
use kernel_tcb::domain::storage::DomainStorage;
use kernel_tcb::domain::registry::{DomainElfRegistry, FileInfo};
use kernel_tcb::domain::{
    load_domain_check, reload_domain_check, unload_domain_check, update_domain_target, DomainKind,
};
use kernel_tcb::domain::{free_policy, storage_source, FreeShared, StorageSource};
use kernel_tcb::domain::{domain_or_empty, update_domain_step, UpdateAction, UpdateEvent, UpdateState};
use kernel_tcb::loader::DomainLoader;
use kernel_tcb::error::Error;

#[test]
fn stand_ins_report_max_id_and_enosys() {
    let l = LogDomainEmptyImpl::new();
    assert_eq!(l.domain_id(), u64::MAX);
    assert_eq!(l.init(), Ok(()));
    assert_eq!(l.log(3, b"hello"), Err(Error::NoSys));
    assert_eq!(l.set_max_level(2), Err(Error::NoSys));
    let e = EmptyDeviceDomainEmptyImpl::new();
    assert_eq!(e.domain_id(), u64::MAX);
    assert_eq!(e.init(), Ok(()));
    assert_eq!(e.read(vec![0; 4]), Err(Error::NoSys));
    assert_eq!(e.write(b"x"), Err(Error::NoSys));
    let b = BlockDeviceDomainEmptyImpl::new();
    assert_eq!(b.domain_id(), u64::MAX);
    assert_eq!(b.init(), Ok(()));
    assert_eq!(b.exit(), Ok(()));
    assert_eq!(b.tag_set_with_queue_data(), Err(Error::NoSys));
    assert_eq!(b.open(0), Err(Error::NoSys));
    assert_eq!(b.queue_rq(1, 2, 3), Err(Error::NoSys));
    assert_eq!(b.complete_request(1), Err(Error::NoSys));
    let n = NvmeDeviceDomainEmptyImpl::new();
    assert_eq!(n.domain_id(), u64::MAX);
    assert_eq!(n.init(), Ok(()));
    assert_eq!(n.exit(), Ok(()));
    assert_eq!(n.probe(1, 2), Err(Error::NoSys));
    assert_eq!(n.handle_irq(0), Err(Error::NoSys));
    assert_eq!(n.poll_queues(1, 2, true), Err(Error::NoSys));
}

#[test]
fn registered_image_is_found_for_its_kind_only() {
    let mut r = DomainElfRegistry::new();
    assert!(r.register_domain_elf("null", vec![1, 2, 3], DomainKind::BlockDeviceDomain));
    assert_eq!(r.image_for("null", DomainKind::BlockDeviceDomain), Some(vec![1, 2, 3]));
    assert_eq!(r.image_for("null", DomainKind::LogDomain), None);
    assert_eq!(r.image_for("other", DomainKind::BlockDeviceDomain), None);
}

#[test]
fn same_name_and_length_is_not_registered_twice() {
    let mut r = DomainElfRegistry::new();
    assert!(r.register_domain_elf("logger", vec![1, 2], DomainKind::LogDomain));
    assert!(!r.register_domain_elf("logger", vec![9, 9], DomainKind::LogDomain));
    assert_eq!(r.image_for("logger", DomainKind::LogDomain), Some(vec![1, 2]));
    assert!(r.register_domain_elf("logger", vec![7, 7, 7], DomainKind::LogDomain));
    assert_eq!(r.image_for("logger", DomainKind::LogDomain), Some(vec![7, 7, 7]));
    let files = r.files_of(DomainKind::LogDomain);
    assert_eq!(files.len(), 2);
    assert_eq!((files[0].name.as_str(), files[0].size), ("logger", 2));
    assert_eq!((files[1].name.as_str(), files[1].size), ("logger", 3));
    assert!(r.files_of(DomainKind::BlockDeviceDomain).is_empty());
}

#[test]
fn unregistered_image_is_gone() {
    let mut r = DomainElfRegistry::new();
    r.register_domain_elf("a", vec![1], DomainKind::EmptyDeviceDomain);
    r.register_domain_elf("b", vec![2], DomainKind::EmptyDeviceDomain);
    r.unregister_domain_elf("a");
    assert_eq!(r.image_for("a", DomainKind::EmptyDeviceDomain), None);
    assert_eq!(r.image_for("b", DomainKind::EmptyDeviceDomain), Some(vec![2]));
    assert_eq!(r.files_of(DomainKind::EmptyDeviceDomain).len(), 2);
}

#[test]
fn create_domain_registers_given_image_first() {
    let mut r = DomainElfRegistry::new();
    assert_eq!(r.create_domain_image(DomainKind::LogDomain, "logger", None), None);
    assert_eq!(
        r.create_domain_image(DomainKind::LogDomain, "logger", Some(vec![5, 6])),
        Some(vec![5, 6])
    );
    assert_eq!(r.create_domain_image(DomainKind::LogDomain, "logger", None), Some(vec![5, 6]));
    assert_eq!(r.create_domain_image(DomainKind::BlockDeviceDomain, "logger", None), None);
}

fn info(name: &str, ty: DomainKind) -> DomainDataInfo {
    DomainDataInfo {
        name: name.to_string(),
        ty,
        panic_count: 0,
        file_info: FileInfo { ty, name: name.to_string(), size: 10 },
    }
}

#[test]
fn info_table_replace_and_panics() {
    let mut t = DomainInfoTable::new();
    t.insert(1, info("logger", DomainKind::LogDomain));
    t.insert(2, info("null", DomainKind::BlockDeviceDomain));
    t.record_panic(1);
    t.record_panic(1);
    t.record_panic(9);
    assert_eq!(t.panic_count(1), Some(2));
    assert_eq!(t.panic_count(9), None);
    t.replace_entry(1, 7, info("logger", DomainKind::LogDomain));
    assert_eq!(t.panic_count(1), None);
    assert_eq!(t.panic_count(7), Some(0));
    assert_eq!(t.panic_count(2), Some(0));
    t.remove(2);
    assert_eq!(t.panic_count(2), None);
    // Replacing the logger at id 7 with a domain of id 8 built from "logger2".
    t.record_panic(7);
    t.finish_update(7, 8, "logger", DomainKind::LogDomain, FileInfo {
        ty: DomainKind::LogDomain,
        name: "logger2".to_string(),
        size: 20,
    });
    assert_eq!(t.panic_count(7), None);
    assert_eq!(t.panic_count(8), Some(0));
}

#[test]
fn lifecycle_decisions() {
    assert_eq!(unload_domain_check(None), Err(Error::NoEnt));
    assert_eq!(unload_domain_check(Some(3)), Err(Error::Busy));
    assert_eq!(unload_domain_check(Some(2)), Ok(()));
    assert_eq!(unload_domain_check(Some(0)), Ok(()));
    assert_eq!(load_domain_check(DomainKind::BlockDeviceDomain), Ok(()));
    assert_eq!(load_domain_check(DomainKind::LogDomain), Err(Error::Inval));
    assert_eq!(update_domain_target(Some(DomainKind::LogDomain)), Ok(DomainKind::LogDomain));
    assert_eq!(update_domain_target(None), Err(Error::Inval));
    assert_eq!(reload_domain_check(false), Err(Error::Inval));
}

#[test]
fn frames_round_up_to_powers_of_two() {
    assert_eq!(frame_request(0), 1);
    assert_eq!(frame_request(1), 1);
    assert_eq!(frame_request(3), 4);
    assert_eq!(frame_request(8), 8);
    assert_eq!(frame_request(9), 16);
    assert_eq!(frame_request(1 << 60), 1 << 60);
    assert_eq!(FRAME_SIZE, 4096);
    assert_eq!(frame_number(0x1234_5678), 0x12345);
    assert_eq!(frame_number(4095), 0);
}

#[test]
fn storage_and_free_policies() {
    assert_eq!(storage_source(Some(4)), StorageSource::Move(4));
    assert_eq!(storage_source(Some(u64::MAX)), StorageSource::Create);
    assert_eq!(storage_source(None), StorageSource::Create);
    assert_eq!(free_policy(DomainKind::LogDomain, 9), FreeShared::Free);
    assert_eq!(free_policy(DomainKind::BlockDeviceDomain, 9), FreeShared::NotFree(9));
    assert_eq!(free_policy(DomainKind::EmptyDeviceDomain, 2), FreeShared::NotFree(2));
}

#[test]
fn storage_moves_with_the_replaced_domain() {
    let mut s = DomainStorage::new();
    // A first domain gets fresh storage, registered as its resource.
    assert_eq!(s.attach(5, None), 0);
    assert_eq!(s.database(5), Some(0));
    assert_eq!(s.resource(5), Some(0));
    // Replacing a stand-in creates fresh storage too.
    assert_eq!(s.attach(6, Some(u64::MAX)), 1);
    // Replacing domain 5 moves its database to domain 9.
    assert_eq!(s.attach(9, Some(5)), 0);
    assert_eq!(s.database(5), None);
    assert_eq!(s.database(9), Some(0));
    assert_eq!(s.resource(9), Some(0));
}

#[test]
fn unload_removes_the_domain_and_its_shim() {
    let mut l = LoadedDomains::new();
    l.record_load("null0");
    assert_eq!(l.domain("null0"), Some(DomainKind::BlockDeviceDomain));
    assert!(l.has_shim("null0"));
    assert_eq!(l.unload("other", None), Err(Error::NoEnt));
    assert_eq!(l.unload("null0", Some(3)), Err(Error::Busy));
    assert!(l.has_shim("null0"));
    assert_eq!(l.unload("null0", Some(2)), Ok(()));
    assert_eq!(l.domain("null0"), None);
    assert!(!l.has_shim("null0"));
}

#[test]
fn update_runs_query_create_replace_record() {
    let (s, a) = update_domain_step(UpdateState::Start, UpdateEvent::Go);
    assert_eq!((s, a), (UpdateState::Querying, UpdateAction::Query));
    let (s, a) = update_domain_step(s, UpdateEvent::Found(Some((DomainKind::BlockDeviceDomain, 4))));
    assert_eq!(a, UpdateAction::Create(DomainKind::BlockDeviceDomain, 4));
    let (s, a) = update_domain_step(s, UpdateEvent::Created(11));
    assert_eq!(a, UpdateAction::Replace(DomainKind::BlockDeviceDomain));
    let (s, a) = update_domain_step(s, UpdateEvent::Replaced(Ok(())));
    assert_eq!(a, UpdateAction::Record(4, 11));
    let (s, a) = update_domain_step(s, UpdateEvent::Recorded);
    assert_eq!((s, a), (UpdateState::Done(Ok(())), UpdateAction::Nothing));
    // An unknown name.
    let (s, _) = update_domain_step(UpdateState::Querying, UpdateEvent::Found(None));
    assert_eq!(s, UpdateState::Done(Err(Error::Inval)));
    // The proxy refuses: the record stays.
    let (s, a) = update_domain_step(
        UpdateState::Replacing(DomainKind::LogDomain, 1, 2),
        UpdateEvent::Replaced(Err(Error::Busy)),
    );
    assert_eq!((s, a), (UpdateState::Done(Err(Error::Busy)), UpdateAction::Nothing));
}

#[test]
fn stand_in_when_no_domain_was_created() {
    let (id, l) = domain_or_empty(None);
    assert_eq!(id, u64::MAX);
    assert_eq!(l.ident(), "empty_loader");
    let (id, l) = domain_or_empty(Some((7, DomainLoader::new(vec![1], "gnull"))));
    assert_eq!(id, 7);
    assert_eq!(l.ident(), "gnull");
}
