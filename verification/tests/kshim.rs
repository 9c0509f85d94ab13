use kernel_tcb::buf::KernelSlicePtr;
use kernel_tcb::error::Error;
use kernel_tcb::kshim::OneDevice;

#[test]
fn one_device_store_answers() {
    assert_eq!(OneDevice::store_answer(Ok(5)), (5, Ok(())));
    assert_eq!(OneDevice::store_answer(Err(Error::NoSys)), (0, Err(Error::Inval)));
}

#[test]
fn one_device_read_answers() {
    let mut w = KernelSlicePtr::new(0x100, 4).unwrap().writer();
    assert_eq!(OneDevice::read_answer(&mut w, Ok(vec![1, 2, 3])), (3, Ok(0x100)));
    assert_eq!(w.len(), 1);
    assert_eq!(OneDevice::read_answer(&mut w, Ok(vec![1, 2])), (2, Err(Error::Fault)));
    assert_eq!(w.len(), 1);
    assert_eq!(OneDevice::read_answer(&mut w, Err(Error::NoSys)), (0, Err(Error::Inval)));
}
