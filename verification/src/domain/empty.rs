//! Stand-in domains used when a domain image is missing: each keeps the
//! interface of its kind, reports the id `u64::MAX`, initialises and exits
//! successfully and answers every other request with `ENOSYS`. Pointers that
//! cross the domain boundary are given as addresses.

use vstd::prelude::*;
use crate::error::{Error, KernelResult};

verus! {

/// The domain id every stand-in reports.
pub open spec fn empty_domain_id() -> u64 {
    u64::MAX
}

/// Stand-in for a logging domain.
#[derive(Clone, Copy, Debug, PartialEq, Eq, Structural)]
pub struct LogDomainEmptyImpl;

impl LogDomainEmptyImpl {
    /// The stand-in.
    pub fn new() -> (r: Self)
        ensures
            r == LogDomainEmptyImpl,
    {
        LogDomainEmptyImpl
    }

    /// The id of a stand-in: `u64::MAX`.
    pub fn domain_id(&self) -> (r: u64)
        ensures
            r == empty_domain_id(),
    {
        u64::MAX
    }

    /// Initialising succeeds.
    pub fn init(&self) -> (r: KernelResult<()>)
        ensures
            r is Ok,
    {
        Ok(())
    }

    /// Logging a message is not implemented.
    pub fn log(&self, _level: u8, _msg: &[u8]) -> (r: KernelResult<()>)
        ensures
            r == Err::<(), Error>(Error::NoSys),
    {
        Err(Error::NoSys)
    }

    /// Setting the level filter is not implemented.
    pub fn set_max_level(&self, _level: u8) -> (r: KernelResult<()>)
        ensures
            r == Err::<(), Error>(Error::NoSys),
    {
        Err(Error::NoSys)
    }
}

/// Stand-in for the echo test device.
#[derive(Clone, Copy, Debug, PartialEq, Eq, Structural)]
pub struct EmptyDeviceDomainEmptyImpl;

impl EmptyDeviceDomainEmptyImpl {
    /// The stand-in.
    pub fn new() -> (r: Self)
        ensures
            r == EmptyDeviceDomainEmptyImpl,
    {
        EmptyDeviceDomainEmptyImpl
    }

    /// The id of a stand-in: `u64::MAX`.
    pub fn domain_id(&self) -> (r: u64)
        ensures
            r == empty_domain_id(),
    {
        u64::MAX
    }

    /// Initialising succeeds.
    pub fn init(&self) -> (r: KernelResult<()>)
        ensures
            r is Ok,
    {
        Ok(())
    }

    /// Reading is not implemented.
    pub fn read(&self, _data: Vec<u8>) -> (r: KernelResult<Vec<u8>>)
        ensures
            r == Err::<Vec<u8>, Error>(Error::NoSys),
    {
        Err(Error::NoSys)
    }

    /// Writing is not implemented.
    pub fn write(&self, _data: &[u8]) -> (r: KernelResult<usize>)
        ensures
            r == Err::<usize, Error>(Error::NoSys),
    {
        Err(Error::NoSys)
    }
}

/// Stand-in for a block device domain.
#[derive(Clone, Copy, Debug, PartialEq, Eq, Structural)]
pub struct BlockDeviceDomainEmptyImpl;

impl BlockDeviceDomainEmptyImpl {
    /// The stand-in.
    pub fn new() -> (r: Self)
        ensures
            r == BlockDeviceDomainEmptyImpl,
    {
        BlockDeviceDomainEmptyImpl
    }

    /// The id of a stand-in: `u64::MAX`.
    pub fn domain_id(&self) -> (r: u64)
        ensures
            r == empty_domain_id(),
    {
        u64::MAX
    }

    /// Initialising succeeds.
    pub fn init(&self) -> (r: KernelResult<()>)
        ensures
            r is Ok,
    {
        Ok(())
    }

    /// Handing out the tag set and queue data is not implemented.
    pub fn tag_set_with_queue_data(&self) -> (r: KernelResult<(usize, usize)>)
        ensures
            r == Err::<(usize, usize), Error>(Error::NoSys),
    {
        Err(Error::NoSys)
    }

    /// Taking the generic disk is not implemented.
    pub fn set_gen_disk(&self, _gen_disk: usize) -> (r: KernelResult<()>)
        ensures
            r == Err::<(), Error>(Error::NoSys),
    {
        Err(Error::NoSys)
    }

    /// Opening is not implemented.
    pub fn open(&self, _mode: u32) -> (r: KernelResult<()>)
        ensures
            r == Err::<(), Error>(Error::NoSys),
    {
        Err(Error::NoSys)
    }

    /// Releasing is not implemented.
    pub fn release(&self) -> (r: KernelResult<()>)
        ensures
            r == Err::<(), Error>(Error::NoSys),
    {
        Err(Error::NoSys)
    }

    /// Initialising a request is not implemented.
    pub fn init_request(&self, _tag_set_ptr: usize, _rq_ptr: usize, _driver_data_ptr: usize) -> (r: KernelResult<()>)
        ensures
            r == Err::<(), Error>(Error::NoSys),
    {
        Err(Error::NoSys)
    }

    /// Tearing down a request is not implemented.
    pub fn exit_request(&self, _tag_set_ptr: usize, _rq_ptr: usize) -> (r: KernelResult<()>)
        ensures
            r == Err::<(), Error>(Error::NoSys),
    {
        Err(Error::NoSys)
    }

    /// Initialising a hardware context is not implemented.
    pub fn init_hctx(&self, _hctx_ptr: usize, _tag_set_data_ptr: usize, _hctx_idx: usize) -> (r: KernelResult<()>)
        ensures
            r == Err::<(), Error>(Error::NoSys),
    {
        Err(Error::NoSys)
    }

    /// Tearing down a hardware context is not implemented.
    pub fn exit_hctx(&self, _hctx_driver_data_ptr: usize, _hctx_idx: usize) -> (r: KernelResult<()>)
        ensures
            r == Err::<(), Error>(Error::NoSys),
    {
        Err(Error::NoSys)
    }

    /// Queueing a request is not implemented.
    pub fn queue_rq(&self, _hctx_ptr: usize, _bd_ptr: usize, _hctx_driver_data_ptr: usize) -> (r: KernelResult<()>)
        ensures
            r == Err::<(), Error>(Error::NoSys),
    {
        Err(Error::NoSys)
    }

    /// Committing requests is not implemented.
    pub fn commit_rqs(&self, _hctx_ptr: usize, _hctx_driver_data_ptr: usize) -> (r: KernelResult<()>)
        ensures
            r == Err::<(), Error>(Error::NoSys),
    {
        Err(Error::NoSys)
    }

    /// Completing a request is not implemented.
    pub fn complete_request(&self, _rq_ptr: usize) -> (r: KernelResult<()>)
        ensures
            r == Err::<(), Error>(Error::NoSys),
    {
        Err(Error::NoSys)
    }

    /// Exiting succeeds.
    pub fn exit(&self) -> (r: KernelResult<()>)
        ensures
            r is Ok,
    {
        Ok(())
    }
}

/// Stand-in for an NVMe block device domain.
#[derive(Clone, Copy, Debug, PartialEq, Eq, Structural)]
pub struct NvmeDeviceDomainEmptyImpl;

impl NvmeDeviceDomainEmptyImpl {
    /// The stand-in.
    pub fn new() -> (r: Self)
        ensures
            r == NvmeDeviceDomainEmptyImpl,
    {
        NvmeDeviceDomainEmptyImpl
    }

    /// The id of a stand-in: `u64::MAX`.
    pub fn domain_id(&self) -> (r: u64)
        ensures
            r == empty_domain_id(),
    {
        u64::MAX
    }

    /// Initialising succeeds.
    pub fn init(&self) -> (r: KernelResult<()>)
        ensures
            r is Ok,
    {
        Ok(())
    }

    /// Exiting succeeds.
    pub fn exit(&self) -> (r: KernelResult<()>)
        ensures
            r is Ok,
    {
        Ok(())
    }

    /// Handling an interrupt is not implemented.
    pub fn handle_irq(&self, _data: usize) -> (r: KernelResult<u32>)
        ensures
            r == Err::<u32, Error>(Error::NoSys),
    {
        Err(Error::NoSys)
    }

    /// Probing a PCI device is not implemented.
    pub fn probe(&self, _pdev: usize, _pci_device_id: usize) -> (r: KernelResult<i32>)
        ensures
            r == Err::<i32, Error>(Error::NoSys),
    {
        Err(Error::NoSys)
    }

    /// Removing a PCI device is not implemented.
    pub fn remove(&self, _pdev: usize) -> (r: KernelResult<()>)
        ensures
            r == Err::<(), Error>(Error::NoSys),
    {
        Err(Error::NoSys)
    }

    /// Initialising a request is not implemented.
    pub fn init_request(&self, _tag_set_ptr: usize, _rq_ptr: usize, _driver_data_ptr: usize, _io_queue: bool) -> (r: KernelResult<()>)
        ensures
            r == Err::<(), Error>(Error::NoSys),
    {
        Err(Error::NoSys)
    }

    /// Tearing down a request is not implemented.
    pub fn exit_request(&self, _tag_set_ptr: usize, _rq_ptr: usize, _io_queue: bool) -> (r: KernelResult<()>)
        ensures
            r == Err::<(), Error>(Error::NoSys),
    {
        Err(Error::NoSys)
    }

    /// Initialising a hardware context is not implemented.
    pub fn init_hctx(&self, _hctx_ptr: usize, _tag_set_data_ptr: usize, _hctx_idx: usize, _io_queue: bool) -> (r: KernelResult<()>)
        ensures
            r == Err::<(), Error>(Error::NoSys),
    {
        Err(Error::NoSys)
    }

    /// Tearing down a hardware context is not implemented.
    pub fn exit_hctx(&self, _hctx_ptr: usize, _hctx_idx: usize, _io_queue: bool) -> (r: KernelResult<()>)
        ensures
            r == Err::<(), Error>(Error::NoSys),
    {
        Err(Error::NoSys)
    }

    /// Queueing a request is not implemented.
    pub fn queue_rq(&self, _hctx_ptr: usize, _bd_ptr: usize, _hctx_driver_data_ptr: usize, _io_queue: bool) -> (r: KernelResult<()>)
        ensures
            r == Err::<(), Error>(Error::NoSys),
    {
        Err(Error::NoSys)
    }

    /// Committing requests is not implemented.
    pub fn commit_rqs(&self, _hctx_ptr: usize, _hctx_driver_data_ptr: usize, _io_queue: bool) -> (r: KernelResult<()>)
        ensures
            r == Err::<(), Error>(Error::NoSys),
    {
        Err(Error::NoSys)
    }

    /// Completing a request is not implemented.
    pub fn complete_request(&self, _rq_ptr: usize, _io_queue: bool) -> (r: KernelResult<()>)
        ensures
            r == Err::<(), Error>(Error::NoSys),
    {
        Err(Error::NoSys)
    }

    /// Mapping queues to CPUs is not implemented.
    pub fn map_queues(&self, _tag_set_ptr: usize, _driver_data_ptr: usize, _io_queue: bool) -> (r: KernelResult<()>)
        ensures
            r == Err::<(), Error>(Error::NoSys),
    {
        Err(Error::NoSys)
    }

    /// Polling queues is not implemented.
    pub fn poll_queues(&self, _hctx_ptr: usize, _iob_ptr: usize, _io_queue: bool) -> (r: KernelResult<i32>)
        ensures
            r == Err::<i32, Error>(Error::NoSys),
    {
        Err(Error::NoSys)
    }
}

} // verus!
