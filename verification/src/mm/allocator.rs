//! Choice of the kernel allocator behind the global allocator.

use vstd::prelude::*;

verus! {

/// Which kernel allocator serves a request.
#[derive(Clone, Copy, Debug, PartialEq, Eq, Structural)]
pub enum Backend {
    /// `krealloc(NULL, ..)` / `kfree`: physically contiguous memory.
    Kmalloc,
    /// `vzalloc` / `vfree`: virtually contiguous, zeroed memory.
    Vmalloc,
}

/// The global allocator of the kernel module.
pub struct KernelAllocator;

impl KernelAllocator {
    /// The allocator that serves, and later frees, a block of `size` bytes:
    /// blocks under 4096 bytes come from kmalloc, larger ones from vmalloc.
    pub fn backend_for(size: usize) -> (b: Backend)
        ensures
            b == (if size < 4096 { Backend::Kmalloc } else { Backend::Vmalloc }),
    {
        if size < 4096 {
            Backend::Kmalloc
        } else {
            Backend::Vmalloc
        }
    }
}

} // verus!
