//! Pages of order 0 and the bounds of accesses into them.

use vstd::prelude::*;
use crate::error::{Error, KernelResult};

verus! {

/// Size of a page in bytes.
pub const PAGE_SIZE: usize = 4096;

/// `off .. off + len` lies within one page.
pub open spec fn in_page(off: usize, len: usize) -> bool {
    off <= PAGE_SIZE && len <= PAGE_SIZE && off + len <= PAGE_SIZE
}

/// A page owned by this value, held by the address of its `struct page`.
pub struct Page {
    page: usize,
}

impl Page {
    /// The address of the `struct page`.
    pub closed spec fn raw_spec(&self) -> usize {
        self.page
    }

    /// Takes ownership of the page whose `struct page` is at `ptr`.
    pub fn from_raw(ptr: usize) -> (p: Self)
        requires
            ptr != 0,
        ensures
            p.raw_spec() == ptr,
    {
        Page { page: ptr }
    }

    /// The address of the `struct page`.
    pub fn as_ptr(&self) -> (r: usize)
        ensures
            r == self.raw_spec(),
    {
        self.page
    }

    /// The bounds check every access into the page makes: a region that
    /// does not lie within the page gives `EINVAL`; otherwise the access goes
    /// ahead at `off` bytes into the mapped page, which is handed back.
    pub fn check_range(off: usize, len: usize) -> (r: KernelResult<usize>)
        ensures
            in_page(off, len) ==> r == Ok::<usize, Error>(off),
            !in_page(off, len) ==> r == Err::<usize, Error>(Error::Inval),
    {
        let bounds_ok = off <= PAGE_SIZE && len <= PAGE_SIZE && (off + len) <= PAGE_SIZE;
        if bounds_ok {
            Ok(off)
        } else {
            Err(Error::Inval)
        }
    }

    /// The region a whole-page slice covers: the
    /// full page from offset zero.
    pub fn whole_page() -> (r: KernelResult<usize>)
        ensures
            r == Ok::<usize, Error>(0),
    {
        Self::check_range(0, PAGE_SIZE)
    }
}

} // verus!
