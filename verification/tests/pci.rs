use kernel_tcb::device::{Data, Device};
use kernel_tcb::error::Error;
use kernel_tcb::pci::{Bar, BarAction, BarEvent, BarSetup, DeviceId, PciDevice, RawPciDeviceId, PCI_ANY_ID};

#[test]
fn device_ids() {
    let d = DeviceId::new(0x8086, 0x1234);
    assert_eq!(d.vendor, 0x8086);
    assert_eq!(d.device, 0x1234);
    assert_eq!(d.subvendor, PCI_ANY_ID);
    assert_eq!(d.subdevice, 0xffff_ffff);
    assert_eq!((d.class, d.class_mask), (0, 0));
    let c = DeviceId::with_class(0x010802, 0xffffff);
    assert_eq!((c.vendor, c.device, c.subvendor, c.subdevice), (!0, !0, !0, !0));
    assert_eq!((c.class, c.class_mask), (0x010802, 0xffffff));
}

#[test]
fn raw_ids_carry_the_offset() {
    let raw = DeviceId::new(0x1b36, 0x0010).to_rawid(-16);
    assert_eq!(
        raw,
        RawPciDeviceId {
            vendor: 0x1b36,
            device: 0x0010,
            subvendor: !0,
            subdevice: !0,
            class: 0,
            class_mask: 0,
            driver_data: (-16i64) as u64,
            override_only: 0,
        }
    );
    assert_eq!(DeviceId::new(1, 2).to_rawid(24).driver_data, 24);
}

#[test]
fn pci_device_address_and_irq() {
    let dev = Device::from_raw(0x1000);
    let p = PciDevice::from_dev(dev, 0xc8);
    assert_eq!(p.as_raw(), 0x1000 - 0xc8);
    assert_eq!(p.as_dev().as_raw(), 0x1000);
    assert_eq!(PciDevice::irq_from_raw(0), None);
    assert_eq!(PciDevice::irq_from_raw(11), Some(11));
}

#[test]
fn bar_indices() {
    assert!(Bar::index_is_valid(0));
    assert!(Bar::index_is_valid(16));
    assert!(!Bar::index_is_valid(17));
    assert_eq!(PciDevice::resource_len_check(5), Ok(()));
    assert_eq!(PciDevice::resource_len_check(100), Err(Error::Inval));
}

#[test]
fn bar_mapping_succeeds_step_by_step() {
    let (s, a) = PciDevice::iomap_region(2, BarSetup::Start, BarEvent::Go);
    assert_eq!((s, a), (BarSetup::ReadingLen, BarAction::ReadLen(2)));
    let (s, a) = PciDevice::iomap_region(2, s, BarEvent::Len(0x4000));
    assert_eq!((s, a), (BarSetup::Requesting(0x4000), BarAction::RequestRegion(2)));
    let (s, a) = PciDevice::iomap_region(2, s, BarEvent::Requested(0));
    assert_eq!((s, a), (BarSetup::Mapping(0x4000), BarAction::IoMap(2)));
    let (s, a) = PciDevice::iomap_region(2, s, BarEvent::Mapped(0xffffc900_0000_0000));
    assert_eq!(a, BarAction::CheckIo(0xffffc900_0000_0000, 0x4000));
    let (s, a) = PciDevice::iomap_region(2, s, BarEvent::IoReady);
    assert_eq!(s, BarSetup::Ready(Bar { num: 2, ioptr: 0xffffc900_0000_0000, len: 0x4000 }));
    assert_eq!(a, BarAction::Nothing);
}

#[test]
fn bar_mapping_failures() {
    assert_eq!(
        PciDevice::iomap_region(17, BarSetup::Start, BarEvent::Go),
        (BarSetup::Failed(Error::Inval), BarAction::Nothing)
    );
    assert_eq!(
        PciDevice::iomap_region(0, BarSetup::ReadingLen, BarEvent::Len(0)),
        (BarSetup::Failed(Error::NoMem), BarAction::Nothing)
    );
    assert_eq!(
        PciDevice::iomap_region(0, BarSetup::Requesting(8), BarEvent::Requested(-16)),
        (BarSetup::Failed(Error::Busy), BarAction::Nothing)
    );
    assert_eq!(
        PciDevice::iomap_region(3, BarSetup::Mapping(8), BarEvent::Mapped(0)),
        (BarSetup::Failed(Error::NoMem), BarAction::ReleaseRegion(3))
    );
    assert_eq!(
        PciDevice::iomap_region(3, BarSetup::Checking(0x10, 8), BarEvent::IoFailed(Error::Inval)),
        (BarSetup::Failed(Error::Inval), BarAction::UnmapAndRelease(0x10, 3))
    );
    // An event that does not answer the pending action changes nothing.
    assert_eq!(
        PciDevice::iomap_region(3, BarSetup::Mapping(8), BarEvent::Len(5)),
        (BarSetup::Mapping(8), BarAction::Nothing)
    );
}

#[test]
fn device_data_revocation() {
    let mut d = Data::new("regs", 7u32, 42u64);
    assert_eq!(d.resources(), Some(&7));
    assert_eq!(*d.general(), 42);
    d.device_remove();
    assert_eq!(d.resources(), None);
    assert_eq!(*d.general(), 42);
}
