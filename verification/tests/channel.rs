use kernel_tcb::buf::KernelSlicePtr;
use kernel_tcb::channel::{Command, CommandChannel, DomainOp, Response, StoreStep};
use kernel_tcb::domain::DomainKind;
use kernel_tcb::error::Error;

fn reply(step: StoreStep) -> (usize, Result<(), Error>) {
    match step {
        StoreStep::Reply(n, r) => (n, r),
        _ => panic!("expected a reply"),
    }
}

fn start(ty: Option<DomainKind>) -> Option<Command> {
    Some(Command::Start { domain_type: ty, elf_ident: "null".to_string(), domain_size: 6 })
}

#[test]
fn upload_session_registers_the_concatenated_image() {
    let mut c = CommandChannel::new();
    let data = [0u8; 12];
    assert_eq!(reply(c.store_value(&data, start(Some(DomainKind::BlockDeviceDomain)))), (12, Ok(())));
    assert_eq!(c.pending_response(), Some(Response::Success(0)));
    let send1 = Some(Command::Send { id: 0, bytes: 2, data_id: 0, data: vec![1, 2] });
    assert_eq!(reply(c.store_value(&data, send1)), (12, Ok(())));
    assert_eq!(c.pending_response(), Some(Response::Received(0, 0, 2)));
    let send2 = Some(Command::Send { id: 0, bytes: 4, data_id: 1, data: vec![3, 4, 5, 6] });
    assert_eq!(reply(c.store_value(&data, send2)), (12, Ok(())));
    match c.store_value(&data, Some(Command::Stop { id: 0 })) {
        StoreStep::Register(DomainOp::Register { ident, elf, ty }, n) => {
            assert_eq!(ident, "null");
            assert_eq!(elf, vec![1, 2, 3, 4, 5, 6]);
            assert_eq!(ty, DomainKind::BlockDeviceDomain);
            assert_eq!(n, 12);
        }
        _ => panic!("expected a registration"),
    }
    assert_eq!(c.pending_response(), Some(Response::Success(0)));
    // The next session gets the next id.
    assert_eq!(reply(c.store_value(&data, start(Some(DomainKind::LogDomain)))), (12, Ok(())));
    assert_eq!(c.pending_response(), Some(Response::Success(1)));
}

#[test]
fn bad_chunks_and_ids_are_rejected() {
    let mut c = CommandChannel::new();
    let data = [0u8; 3];
    c.store_value(&data, start(Some(DomainKind::LogDomain)));
    let wrong_id = Some(Command::Send { id: 5, bytes: 1, data_id: 0, data: vec![1] });
    assert_eq!(reply(c.store_value(&data, wrong_id)), (0, Err(Error::Inval)));
    let wrong_len = Some(Command::Send { id: 0, bytes: 2, data_id: 0, data: vec![1] });
    assert_eq!(reply(c.store_value(&data, wrong_len)), (0, Err(Error::Inval)));
    assert_eq!(reply(c.store_value(&data, Some(Command::Stop { id: 4 }))), (0, Err(Error::Inval)));
    assert_eq!(reply(c.store_value(&data, None)), (0, Err(Error::Inval)));
    assert_eq!(reply(c.store_value(&data, Some(Command::Unsupported))), (0, Err(Error::Inval)));
    assert_eq!(c.pending_response(), Some(Response::Success(0)));
}

#[test]
fn start_with_unknown_type_still_uses_an_id() {
    let mut c = CommandChannel::new();
    let data = [0u8; 3];
    assert_eq!(reply(c.store_value(&data, start(None))), (0, Err(Error::Inval)));
    assert_eq!(c.pending_response(), None);
    // The failed start made id 0 current but opened no image buffer.
    let send = Some(Command::Send { id: 0, bytes: 1, data_id: 0, data: vec![1] });
    assert!(!c.can_store(&send));
    assert_eq!(reply(c.store_value(&data, start(Some(DomainKind::LogDomain)))), (3, Ok(())));
    assert_eq!(c.pending_response(), Some(Response::Success(1)));
}

#[test]
fn chunk_without_session_would_panic() {
    let c = CommandChannel::new();
    assert!(!c.can_store(&Some(Command::Send { id: 0, bytes: 0, data_id: 0, data: vec![] })));
    assert!(!c.can_store(&Some(Command::Stop { id: 0 })));
    assert!(c.can_store(&Some(Command::Unload { domain_ident: "x".to_string() })));
    assert!(c.can_store(&None));
}

#[test]
fn domain_work_is_handed_out_and_answered() {
    let mut c = CommandChannel::new();
    let data = [0u8; 5];
    match c.store_value(
        &data,
        Some(Command::Load {
            elf_ident: "null".to_string(),
            domain_ident: "null0".to_string(),
            domain_type: Some(DomainKind::BlockDeviceDomain),
        }),
    ) {
        StoreStep::Perform(DomainOp::Load { elf_ident, domain_ident, ty }) => {
            assert_eq!((elf_ident.as_str(), domain_ident.as_str()), ("null", "null0"));
            assert_eq!(ty, DomainKind::BlockDeviceDomain);
        }
        _ => panic!("expected a load"),
    }
    assert_eq!(c.finish_op(5, false), (0, Err(Error::Inval)));
    assert_eq!(c.pending_response(), None);
    assert_eq!(c.finish_op(5, true), (5, Ok(())));
    assert_eq!(c.pending_response(), Some(Response::Success(0)));
    match c.store_value(&data, Some(Command::Unload { domain_ident: "null0".to_string() })) {
        StoreStep::Perform(DomainOp::Unload { domain_ident }) => assert_eq!(domain_ident, "null0"),
        _ => panic!("expected an unload"),
    }
    match c.store_value(
        &data,
        Some(Command::Update {
            domain_ident: "logger".to_string(),
            elf_ident: "logger2".to_string(),
            domain_type: Some(DomainKind::LogDomain),
        }),
    ) {
        StoreStep::Perform(DomainOp::Update { old_ident, new_ident, ty }) => {
            assert_eq!((old_ident.as_str(), new_ident.as_str(), ty), ("logger", "logger2", DomainKind::LogDomain));
        }
        _ => panic!("expected an update"),
    }
    let bad = Some(Command::Update {
        domain_ident: "logger".to_string(),
        elf_ident: "logger2".to_string(),
        domain_type: None,
    });
    assert_eq!(reply(c.store_value(&data, bad)), (0, Err(Error::Inval)));
}

#[test]
fn a_response_is_read_once() {
    let mut c = CommandChannel::new();
    let mut w = KernelSlicePtr::new(0x8000, 16).unwrap().writer();
    assert_eq!(c.read_value(&mut w, &[1, 2]), (0, Err(Error::Again)));
    c.store_value(&[0u8; 4], start(Some(DomainKind::LogDomain)));
    let mut small = KernelSlicePtr::new(0x8000, 1).unwrap().writer();
    assert_eq!(c.read_value(&mut small, &[1, 2]), (0, Err(Error::Again)));
    assert_eq!(c.pending_response(), Some(Response::Success(0)));
    assert_eq!(c.read_value(&mut w, &[1, 2]), (2, Ok(0x8000)));
    assert_eq!(w.len(), 14);
    assert_eq!(c.read_value(&mut w, &[1, 2]), (0, Err(Error::Again)));
}
