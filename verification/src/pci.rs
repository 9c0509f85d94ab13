//! PCI device ids, devices and the bring-up of a PCI BAR mapping.

use vstd::prelude::*;
use crate::device::Device;
use crate::error::{Error, KernelResult};

verus! {

/// `PCI_ANY_ID`: matches any id.
pub const PCI_ANY_ID: u32 = 0xffff_ffff;

/// `PCI_NUM_RESOURCES`: the number of resource slots of a `struct pci_dev`
/// (six standard BARs, the ROM, six SR-IOV BARs and four bridge windows).
pub const PCI_NUM_RESOURCES: u32 = 17;

/// The C `struct pci_device_id` record that goes into a driver's id table.
#[derive(Clone, Copy, Debug, PartialEq, Eq, Structural)]
pub struct RawPciDeviceId {
    pub vendor: u32,
    pub device: u32,
    pub subvendor: u32,
    pub subdevice: u32,
    pub class: u32,
    pub class_mask: u32,
    pub driver_data: u64,
    pub override_only: u32,
}

/// A PCI device id a driver matches against.
#[derive(Clone, Copy, Debug, PartialEq, Eq, Structural)]
pub struct DeviceId {
    /// Vendor ID
    pub vendor: u32,
    /// Device ID
    pub device: u32,
    /// Subsystem vendor ID
    pub subvendor: u32,
    /// Subsystem device ID
    pub subdevice: u32,
    /// Device class and subclass
    pub class: u32,
    /// Limit which sub-fields of the class
    pub class_mask: u32,
}

impl DeviceId {
    /// The `PCI_DEVICE` id: given vendor and device, any subsystem, no class.
    pub fn new(vendor: u32, device: u32) -> (d: Self)
        ensures
            d == (DeviceId {
                vendor,
                device,
                subvendor: PCI_ANY_ID,
                subdevice: PCI_ANY_ID,
                class: 0,
                class_mask: 0,
            }),
    {
        DeviceId {
            vendor,
            device,
            subvendor: PCI_ANY_ID,
            subdevice: PCI_ANY_ID,
            class: 0,
            class_mask: 0,
        }
    }

    /// The `PCI_DEVICE_CLASS` id: any vendor, device and subsystem, the given
    /// class under the given mask.
    pub fn with_class(class: u32, class_mask: u32) -> (d: Self)
        ensures
            d == (DeviceId {
                vendor: PCI_ANY_ID,
                device: PCI_ANY_ID,
                subvendor: PCI_ANY_ID,
                subdevice: PCI_ANY_ID,
                class,
                class_mask,
            }),
    {
        DeviceId {
            vendor: PCI_ANY_ID,
            device: PCI_ANY_ID,
            subvendor: PCI_ANY_ID,
            subdevice: PCI_ANY_ID,
            class,
            class_mask,
        }
    }

    /// The raw table entry, with `offset` (the distance to the entry's driver
    /// information) stored as `driver_data`.
    pub fn to_rawid(&self, offset: isize) -> (r: RawPciDeviceId)
        ensures
            r == (RawPciDeviceId {
                vendor: self.vendor,
                device: self.device,
                subvendor: self.subvendor,
                subdevice: self.subdevice,
                class: self.class,
                class_mask: self.class_mask,
                driver_data: offset as u64,
                override_only: 0,
            }),
    {
        RawPciDeviceId {
            vendor: self.vendor,
            device: self.device,
            subvendor: self.subvendor,
            subdevice: self.subdevice,
            class: self.class,
            class_mask: self.class_mask,
            driver_data: offset as u64,
            override_only: 0,
        }
    }
}

/// A PCI device: the generic device embedded in a `struct pci_dev`.
#[derive(Clone, Copy, Debug, PartialEq, Eq, Structural)]
pub struct PciDevice {
    dev: Device,
    dev_offset: usize,
}

impl PciDevice {
    /// The embedded generic device.
    pub closed spec fn dev_spec(&self) -> Device {
        self.dev
    }

    /// Offset of the embedded `struct device` within `struct pci_dev`.
    pub closed spec fn dev_offset_spec(&self) -> usize {
        self.dev_offset
    }

    /// The PCI device whose `struct pci_dev` embeds `dev` at byte offset `dev_offset`.
    pub fn from_dev(dev: Device, dev_offset: usize) -> (p: Self)
        ensures
            p.dev_spec() == dev,
            p.dev_offset_spec() == dev_offset,
    {
        PciDevice { dev, dev_offset }
    }

    /// The address of the `struct pci_dev`: the device's address less the
    /// offset of the embedded `struct device` (wrapping, as `container_of!`).
    pub fn as_raw(&self) -> (r: usize)
        ensures
            r == vstd::wrapping::usize_specs::wrapping_sub(
                self.dev_spec().raw_spec(),
                self.dev_offset_spec(),
            ),
    {
        self.dev.as_raw().wrapping_sub(self.dev_offset)
    }

    /// The embedded generic device.
    pub fn as_dev(&self) -> (d: Device)
        ensures
            d == self.dev_spec(),
    {
        self.dev
    }

    /// The interrupt line read from the `struct pci_dev`: zero means none.
    pub fn irq_from_raw(irq: u32) -> (r: Option<u32>)
        ensures
            r == (if irq == 0 { None } else { Some(irq) }),
    {
        if irq == 0 {
            None
        } else {
            Some(irq)
        }
    }

    /// The check `resource_len` makes before it reads the length of a BAR:
    /// an index outside the device's resource slots gives `EINVAL`.
    pub fn resource_len_check(bar: u32) -> (r: KernelResult<()>)
        ensures
            r is Ok <==> bar < PCI_NUM_RESOURCES,
            r is Err ==> r == Err::<(), Error>(Error::Inval),
    {
        if !Bar::index_is_valid(bar) {
            return Err(Error::Inval);
        }
        Ok(())
    }
}

/// A mapped PCI BAR: its number, the start of its mapping and its length.
#[derive(Clone, Copy, Debug, PartialEq, Eq, Structural)]
pub struct Bar {
    pub num: i32,
    pub ioptr: usize,
    pub len: u64,
}

impl Bar {
    /// A `struct pci_dev` has at most `PCI_NUM_RESOURCES` resources.
    pub fn index_is_valid(index: u32) -> (r: bool)
        ensures
            r == (index < PCI_NUM_RESOURCES),
    {
        index < PCI_NUM_RESOURCES
    }
}

/// How far the mapping of a BAR has come.
#[derive(Clone, Copy, Debug, PartialEq, Eq, Structural)]
pub enum BarSetup {
    /// Nothing done yet.
    Start,
    /// The length of the BAR is being read.
    ReadingLen,
    /// The region of the given length is being requested.
    Requesting(u64),
    /// The requested region of the given length is being mapped.
    Mapping(u64),
    /// The mapping at the given address, of the given length, is being checked.
    Checking(usize, u64),
    /// The BAR is mapped.
    Ready(Bar),
    /// Setting up failed with the given error; what was acquired is released.
    Failed(Error),
}

/// What the kernel reported for the last action.
#[derive(Clone, Copy, Debug, PartialEq, Eq, Structural)]
pub enum BarEvent {
    /// Begin.
    Go,
    /// `pci_resource_len` gave this length.
    Len(u64),
    /// `pci_request_region` returned this value.
    Requested(i32),
    /// `pci_iomap` returned this address.
    Mapped(usize),
    /// Wrapping the mapping into an I/O region succeeded.
    IoReady,
    /// Wrapping the mapping into an I/O region failed with this error.
    IoFailed(Error),
}

/// What is to be done next.
#[derive(Clone, Copy, Debug, PartialEq, Eq, Structural)]
pub enum BarAction {
    /// Read the length of BAR `num`.
    ReadLen(u32),
    /// Call `pci_request_region` for BAR `num`.
    RequestRegion(i32),
    /// Call `pci_iomap` for BAR `num`.
    IoMap(i32),
    /// Build the I/O region of the given address and length.
    CheckIo(usize, u64),
    /// Release the requested region of BAR `num`.
    ReleaseRegion(i32),
    /// Unmap the mapping at the address, then release the region of BAR `num`.
    UnmapAndRelease(usize, i32),
    /// Nothing: the state is final.
    Nothing,
}

/// The state and action that follow `state` on `event` when BAR `num` is mapped.
pub open spec fn bar_next(num: u32, state: BarSetup, event: BarEvent) -> (BarSetup, BarAction) {
    match (state, event) {
        (BarSetup::Start, BarEvent::Go) => if num < PCI_NUM_RESOURCES {
            (BarSetup::ReadingLen, BarAction::ReadLen(num))
        } else {
            (BarSetup::Failed(Error::Inval), BarAction::Nothing)
        },
        (BarSetup::ReadingLen, BarEvent::Len(len)) => if len == 0 {
            (BarSetup::Failed(Error::NoMem), BarAction::Nothing)
        } else {
            (BarSetup::Requesting(len), BarAction::RequestRegion(num as i32))
        },
        (BarSetup::Requesting(len), BarEvent::Requested(ret)) => if ret != 0 {
            (BarSetup::Failed(Error::Busy), BarAction::Nothing)
        } else {
            (BarSetup::Mapping(len), BarAction::IoMap(num as i32))
        },
        (BarSetup::Mapping(len), BarEvent::Mapped(ioptr)) => if ioptr == 0 {
            (BarSetup::Failed(Error::NoMem), BarAction::ReleaseRegion(num as i32))
        } else {
            (BarSetup::Checking(ioptr, len), BarAction::CheckIo(ioptr, len))
        },
        (BarSetup::Checking(ioptr, len), BarEvent::IoReady) => (
            BarSetup::Ready(Bar { num: num as i32, ioptr, len }),
            BarAction::Nothing,
        ),
        (BarSetup::Checking(ioptr, len), BarEvent::IoFailed(e)) => (
            BarSetup::Failed(e),
            BarAction::UnmapAndRelease(ioptr, num as i32),
        ),
        _ => (state, BarAction::Nothing),
    }
}

/// What the mapping of BAR `num` has established in each state: a length
/// is only carried once it is known to be non-zero, a mapping address once
/// it is known to be non-null, and only for a valid BAR index.
pub open spec fn bar_setup_inv(num: u32, state: BarSetup) -> bool {
    match state {
        BarSetup::Start | BarSetup::Failed(_) => true,
        BarSetup::ReadingLen => num < PCI_NUM_RESOURCES,
        BarSetup::Requesting(len) | BarSetup::Mapping(len) => num < PCI_NUM_RESOURCES && len != 0,
        BarSetup::Checking(ioptr, len) => num < PCI_NUM_RESOURCES && len != 0 && ioptr != 0,
        BarSetup::Ready(bar) => num < PCI_NUM_RESOURCES && bar.num == num as i32 && bar.len != 0
            && bar.ioptr != 0,
    }
}

/// Every step of mapping a BAR keeps what has been established, so a BAR is
/// only reported mapped with a valid index, a non-zero length and a non-null
/// mapping; and a failure after the region was requested always comes with
/// the action that gives the region back.
pub proof fn lemma_bar_setup_step(num: u32, state: BarSetup, event: BarEvent)
    requires
        bar_setup_inv(num, state),
    ensures
        bar_setup_inv(num, bar_next(num, state, event).0),
        (state matches BarSetup::Mapping(_)) && (bar_next(num, state, event).0 matches BarSetup::Failed(_))
            ==> bar_next(num, state, event).1 == BarAction::ReleaseRegion(num as i32),
        match state {
            BarSetup::Checking(ioptr, _) => (bar_next(num, state, event).0 matches BarSetup::Failed(_))
                ==> bar_next(num, state, event).1 == BarAction::UnmapAndRelease(ioptr, num as i32),
            _ => true,
        },
{
}

impl PciDevice {
    /// One step of mapping BAR `num`: the state and action
    /// that follow `state` when `event` is reported. An event that does not
    /// answer the state's pending action changes nothing.
    pub fn iomap_region(num: u32, state: BarSetup, event: BarEvent) -> (r: (BarSetup, BarAction))
        ensures
            r == bar_next(num, state, event),
    {
        match (state, event) {
            (BarSetup::Start, BarEvent::Go) => {
                if Bar::index_is_valid(num) {
                    (BarSetup::ReadingLen, BarAction::ReadLen(num))
                } else {
                    (BarSetup::Failed(Error::Inval), BarAction::Nothing)
                }
            },
            (BarSetup::ReadingLen, BarEvent::Len(len)) => {
                if len == 0 {
                    (BarSetup::Failed(Error::NoMem), BarAction::Nothing)
                } else {
                    (BarSetup::Requesting(len), BarAction::RequestRegion(num as i32))
                }
            },
            (BarSetup::Requesting(len), BarEvent::Requested(ret)) => {
                if ret != 0 {
                    (BarSetup::Failed(Error::Busy), BarAction::Nothing)
                } else {
                    (BarSetup::Mapping(len), BarAction::IoMap(num as i32))
                }
            },
            (BarSetup::Mapping(len), BarEvent::Mapped(ioptr)) => {
                if ioptr == 0 {
                    (BarSetup::Failed(Error::NoMem), BarAction::ReleaseRegion(num as i32))
                } else {
                    (BarSetup::Checking(ioptr, len), BarAction::CheckIo(ioptr, len))
                }
            },
            (BarSetup::Checking(ioptr, len), BarEvent::IoReady) => (
                BarSetup::Ready(Bar { num: num as i32, ioptr, len }),
                BarAction::Nothing,
            ),
            (BarSetup::Checking(ioptr, len), BarEvent::IoFailed(e)) => (
                BarSetup::Failed(e),
                BarAction::UnmapAndRelease(ioptr, num as i32),
            ),
            _ => (state, BarAction::Nothing),
        }
    }
}

} // verus!
