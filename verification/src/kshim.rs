//! Answers of the sysctl files through which user space talks to the echo
//! test device domains.

use vstd::prelude::*;
use crate::buf::{advance, max_transfer, Cursor, KernelSlicePtrWriter};
use crate::error::{Error, KernelResult};

verus! {

/// A sysctl file backed by the echo test device domain.
pub struct OneDevice;

impl OneDevice {
    /// The answer to a store, given what the domain's `write` returned: the
    /// number of bytes it took, or `EINVAL` when it failed.
    pub fn store_answer(written: KernelResult<usize>) -> (r: (usize, KernelResult<()>))
        ensures
            written matches Ok(n) ==> r == (n, Ok::<(), Error>(())),
            written is Err ==> r == (0usize, Err::<(), Error>(Error::Inval)),
    {
        match written {
            Ok(n) => (n, Ok(())),
            Err(_) => (0, Err(Error::Inval)),
        }
    }

    /// The answer to a read into `writer`, given what the domain's `read`
    /// returned: its bytes are written out, or `EINVAL` when it failed. On
    /// success the address the bytes go to is handed back.
    pub fn read_answer(writer: &mut KernelSlicePtrWriter, read: KernelResult<Vec<u8>>) -> (r: (
        usize,
        KernelResult<usize>,
    ))
        ensures
            match read {
                Ok(data) => {
                    &&& r.0 == data@.len()
                    &&& data@.len() <= old(writer)@.len && data@.len() <= max_transfer() ==> {
                        &&& r.1 == Ok::<usize, Error>(old(writer)@.addr)
                        &&& final(writer)@ == (Cursor {
                            addr: advance(old(writer)@.addr, data@.len() as usize),
                            len: (old(writer)@.len - data@.len()) as usize,
                        })
                    }
                    &&& !(data@.len() <= old(writer)@.len && data@.len() <= max_transfer()) ==> {
                        &&& r.1 == Err::<usize, Error>(Error::Fault)
                        &&& final(writer)@ == old(writer)@
                    }
                },
                Err(_) => r == (0usize, Err::<usize, Error>(Error::Inval)) && final(writer)@ == old(writer)@,
            },
    {
        match read {
            Ok(data) => (data.len(), writer.write(data.as_slice())),
            Err(_) => (0, Err(Error::Inval)),
        }
    }
}

} // verus!
