use kernel_tcb::buf::{KernelSlicePtr, UserSliceReader};
use kernel_tcb::error::Error;

#[test]
fn kernel_reader_advances_by_what_it_reads() {
    let mut r = KernelSlicePtr::new(0x1000, 10).unwrap().reader();
    assert_eq!(r.len(), 10);
    assert!(!r.is_empty());
    assert_eq!(r.read(4), Ok(0x1000));
    assert_eq!(r.len(), 6);
    assert_eq!(r.read(6), Ok(0x1004));
    assert!(r.is_empty());
}

#[test]
fn kernel_reader_refuses_reads_past_the_end() {
    let mut r = KernelSlicePtr::new(0x1000, 10).unwrap().reader();
    assert_eq!(r.read(11), Err(Error::Fault));
    assert_eq!(r.len(), 10);
    assert_eq!(r.read(10), Ok(0x1000));
}

#[test]
fn kernel_reader_refuses_reads_over_u32_max() {
    let big = u32::MAX as usize + 1;
    let mut r = KernelSlicePtr::new(0, big).unwrap().reader();
    assert_eq!(r.read(big), Err(Error::Fault));
    assert_eq!(r.read_all(), Err(Error::Fault));
    assert_eq!(KernelSlicePtr::new(0, big).unwrap().read_all(), Err(Error::Fault));
}

#[test]
fn kernel_read_all_takes_everything() {
    let mut r = KernelSlicePtr::new(0x2000, 7).unwrap().reader();
    assert_eq!(r.read(2), Ok(0x2000));
    assert_eq!(r.read_all(), Ok((0x2002, 5)));
    assert!(r.is_empty());
    assert_eq!(KernelSlicePtr::new(0x3000, 3).unwrap().read_all(), Ok((0x3000, 3)));
}

#[test]
fn kernel_writer_reserves_room_for_data() {
    let mut w = KernelSlicePtr::new(0x5000, 8).unwrap().writer();
    assert_eq!(w.write(&[1, 2, 3]), Ok(0x5000));
    assert_eq!(w.len(), 5);
    assert_eq!(w.write(&[0; 6]), Err(Error::Fault));
    assert_eq!(w.len(), 5);
    assert_eq!(w.write(&[0; 5]), Ok(0x5003));
    assert!(w.is_empty());
    assert_eq!(KernelSlicePtr::new(0x5000, 2).unwrap().write_all(&[1, 2, 3]), Err(Error::Fault));
    assert_eq!(KernelSlicePtr::new(0x5000, 3).unwrap().write_all(&[1, 2, 3]), Ok(0x5000));
}

#[test]
fn cursor_addresses_wrap() {
    let mut r = KernelSlicePtr::new(usize::MAX, 4).unwrap().reader();
    assert_eq!(r.read(2), Ok(usize::MAX));
    assert_eq!(r.read(1), Ok(1));
}

#[test]
fn user_reader_skip_and_clone() {
    let mut r = UserSliceReader::new(0x7000, 16);
    assert_eq!(r.skip(4), Ok(()));
    assert_eq!(r.len(), 12);
    let c = r.clone_reader();
    assert_eq!(r.skip(13), Err(Error::Fault));
    assert_eq!(r.len(), 12);
    assert_eq!(r.skip(12), Ok(()));
    assert!(r.is_empty());
    assert_eq!(c.len(), 12);
    assert_eq!(c.read_start(1), Ok(0x7004));
}

#[test]
fn user_skips_compose() {
    let mut a = UserSliceReader::new(0x100, 20);
    a.skip(3).unwrap();
    a.skip(5).unwrap();
    let mut b = UserSliceReader::new(0x100, 20);
    b.skip(8).unwrap();
    assert_eq!(a.len(), b.len());
    assert_eq!(a.read_start(1), b.read_start(1));
}

#[test]
fn user_read_in_two_halves() {
    let mut r = UserSliceReader::new(0x9000, 8);
    assert_eq!(r.read_start(9), Err(Error::Fault));
    assert_eq!(r.read_start(8), Ok(0x9000));
    assert_eq!(r.read_finish(4, 1), Err(Error::Fault));
    assert_eq!(r.len(), 8);
    assert_eq!(r.read_finish(4, 0), Ok(()));
    assert_eq!(r.len(), 4);
    assert_eq!(r.read_start(4), Ok(0x9004));
}
