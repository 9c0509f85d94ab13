use kernel_tcb::error::Error;
use kernel_tcb::fs::iomap::{IoMap, Type, IOMAP_F_DIRTY, IOMAP_F_NEW};
use kernel_tcb::mm::allocator::{Backend, KernelAllocator};
use kernel_tcb::mm::cache_padded::{CacheAligned, CachePadded};
use kernel_tcb::mm::pages::{Page, PAGE_SIZE};
use kernel_tcb::mm::set_memory_x_result;

#[test]
fn page_ranges() {
    assert_eq!(Page::check_range(0, PAGE_SIZE), Ok(0));
    assert_eq!(Page::check_range(4000, 96), Ok(4000));
    assert_eq!(Page::check_range(4000, 97), Err(Error::Inval));
    assert_eq!(Page::check_range(4097, 0), Err(Error::Inval));
    assert_eq!(Page::check_range(0, 4097), Err(Error::Inval));
    assert_eq!(Page::check_range(usize::MAX, usize::MAX), Err(Error::Inval));
    assert_eq!(Page::whole_page(), Ok(0));
    assert_eq!(Page::from_raw(0xffffea00_0000_0040).as_ptr(), 0xffffea00_0000_0040);
}

#[test]
fn allocator_backend_by_size() {
    assert_eq!(KernelAllocator::backend_for(0), Backend::Kmalloc);
    assert_eq!(KernelAllocator::backend_for(4095), Backend::Kmalloc);
    assert_eq!(KernelAllocator::backend_for(4096), Backend::Vmalloc);
    assert_eq!(KernelAllocator::backend_for(1 << 20), Backend::Vmalloc);
}

#[test]
fn memory_x_result() {
    assert_eq!(set_memory_x_result(0), Ok(()));
    assert_eq!(set_memory_x_result(-22), Err(Error::Inval));
    assert_eq!(set_memory_x_result(1), Err(Error::Inval));
}

#[test]
fn padded_values() {
    let mut p = CachePadded::new(5u64);
    *p.get_mut() += 1;
    assert_eq!(*p.get(), 6);
    let mut a = CacheAligned::new([1u8, 2, 3]);
    a.get_mut()[0] = 9;
    assert_eq!(*a.get(), [9, 2, 3]);
}

#[test]
fn iomap_setters_chain() {
    let mut m = IoMap { type_: 0, offset: 0, length: 0, flags: 0, addr: 0, bdev: 0 };
    m.set_type(Type::Mapped)
        .set_offset(4096)
        .set_length(8192)
        .set_flags(IOMAP_F_NEW | IOMAP_F_DIRTY)
        .set_addr(1 << 20)
        .set_bdev(Some(0xdead_0000));
    assert_eq!(m, IoMap { type_: 2, offset: 4096, length: 8192, flags: 3, addr: 1 << 20, bdev: 0xdead_0000 });
    m.set_bdev(None).set_type(Type::Inline);
    assert_eq!((m.bdev, m.type_), (0, 4));
    assert_eq!(Type::Hole.to_raw(), 0);
    assert_eq!(Type::DelAlloc.to_raw(), 1);
    assert_eq!(Type::Unwritten.to_raw(), 3);
}
