//! Memory helpers: cache-line padding, page bounds, allocation backends.

use vstd::prelude::*;
use crate::error::{Error, KernelResult};

pub mod cache_padded;
pub mod pages;
pub mod allocator;

verus! {

/// The outcome of `set_memory_x`: the kernel's zero means success, anything
/// else is reported as `EINVAL`.
pub fn set_memory_x_result(ret: i32) -> (r: KernelResult<()>)
    ensures
        ret == 0 ==> r is Ok,
        ret != 0 ==> r == Err::<(), Error>(Error::Inval),
{
    if ret == 0 {
        Ok(())
    } else {
        Err(Error::Inval)
    }
}

} // verus!
