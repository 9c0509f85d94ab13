//! Cursors over kernel and user memory ranges.
//!
//! A cursor holds the address of the next byte and the number of bytes left.
//! The checks and the bookkeeping of each transfer are here; the bytes
//! themselves are moved by the caller, from or to the address that a
//! successful call hands back.

use vstd::prelude::*;
use crate::error::{Error, KernelResult};

verus! {

/// Address reached after moving `n` bytes forward from `addr`; the address
/// arithmetic wraps, as the cursors never dereference it themselves.
pub open spec fn advance(addr: usize, n: usize) -> usize {
    vstd::wrapping::usize_specs::wrapping_add(addr, n)
}

/// The position of a cursor: the address of its next byte and the number of
/// bytes left.
pub struct Cursor {
    pub addr: usize,
    pub len: usize,
}

/// The largest transfer the kernel-slice cursors accept in one call.
pub open spec fn max_transfer() -> usize {
    0xffff_ffffusize
}

/// A range of kernel memory given by its start address and length.
pub struct KernelSlicePtr {
    addr: usize,
    len: usize,
}

impl View for KernelSlicePtr {
    type V = Cursor;

    closed spec fn view(&self) -> Cursor {
        Cursor { addr: self.addr, len: self.len }
    }
}

/// A cursor that reads a kernel slice from front to back.
pub struct KernelSlicePtrReader {
    addr: usize,
    len: usize,
}

impl View for KernelSlicePtrReader {
    type V = Cursor;

    closed spec fn view(&self) -> Cursor {
        Cursor { addr: self.addr, len: self.len }
    }
}

/// A cursor that writes a kernel slice from front to back.
pub struct KernelSlicePtrWriter {
    addr: usize,
    len: usize,
}

impl View for KernelSlicePtrWriter {
    type V = Cursor;

    closed spec fn view(&self) -> Cursor {
        Cursor { addr: self.addr, len: self.len }
    }
}

impl KernelSlicePtr {
    /// Describes the `length` bytes that start at `addr`; this never fails.
    pub fn new(addr: usize, length: usize) -> (r: KernelResult<KernelSlicePtr>)
        ensures
            r matches Ok(s) && s@ == (Cursor { addr, len: length }),
    {
        Ok(KernelSlicePtr { addr, len: length })
    }

    /// Reads the whole slice: the range to copy is handed back, as in
    /// [`KernelSlicePtrReader::read_all`].
    pub fn read_all(self) -> (r: KernelResult<(usize, usize)>)
        ensures
            self@.len <= max_transfer() ==> r == Ok::<(usize, usize), Error>((self@.addr, self@.len)),
            self@.len > max_transfer() ==> r == Err::<(usize, usize), Error>(Error::Fault),
    {
        let mut reader = self.reader();
        reader.read_all()
    }

    /// A reader positioned at the start of the slice.
    pub fn reader(self) -> (r: KernelSlicePtrReader)
        ensures
            r@ == self@,
    {
        KernelSlicePtrReader { addr: self.addr, len: self.len }
    }

    /// Writes `data` at the start of the slice, as [`KernelSlicePtrWriter::write`]
    /// on a fresh writer.
    pub fn write_all(self, data: &[u8]) -> (r: KernelResult<usize>)
        ensures
            data@.len() <= self@.len && data@.len() <= max_transfer() ==> r == Ok::<usize, Error>(self@.addr),
            !(data@.len() <= self@.len && data@.len() <= max_transfer()) ==> r == Err::<usize, Error>(Error::Fault),
    {
        let mut writer = self.writer();
        writer.write(data)
    }

    /// A writer positioned at the start of the slice.
    pub fn writer(self) -> (w: KernelSlicePtrWriter)
        ensures
            w@ == self@,
    {
        KernelSlicePtrWriter { addr: self.addr, len: self.len }
    }
}

impl KernelSlicePtrReader {
    /// Number of bytes left to read.
    pub fn len(&self) -> (r: usize)
        ensures
            r == self@.len,
    {
        self.len
    }

    /// True when no byte is left to read.
    pub fn is_empty(&self) -> (r: bool)
        ensures
            r == (self@.len == 0),
    {
        self.len() == 0
    }

    /// Takes the next `count` bytes: on success hands back the address they
    /// start at and moves the cursor past them. More bytes than are left, or
    /// more than `u32::MAX`, give `EFAULT` and leave the cursor as it was.
    pub fn read(&mut self, count: usize) -> (r: KernelResult<usize>)
        ensures
            count <= old(self)@.len && count <= max_transfer() ==> {
                &&& r == Ok::<usize, Error>(old(self)@.addr)
                &&& final(self)@ == (Cursor {
                    addr: advance(old(self)@.addr, count),
                    len: (old(self)@.len - count) as usize,
                })
            },
            !(count <= old(self)@.len && count <= max_transfer()) ==> {
                &&& r == Err::<usize, Error>(Error::Fault)
                &&& final(self)@ == old(self)@
            },
    {
        if count > self.len || count > 0xffff_ffffusize {
            return Err(Error::Fault);
        }
        let start = self.addr;
        self.addr = self.addr.wrapping_add(count);
        self.len = self.len - count;
        Ok(start)
    }

    /// Takes all bytes that are left: hands back `(start, count)` and leaves
    /// the cursor empty; more than `u32::MAX` bytes give `EFAULT`.
    pub fn read_all(&mut self) -> (r: KernelResult<(usize, usize)>)
        ensures
            old(self)@.len <= max_transfer() ==> {
                &&& r == Ok::<(usize, usize), Error>((old(self)@.addr, old(self)@.len))
                &&& final(self)@ == (Cursor { addr: advance(old(self)@.addr, old(self)@.len), len: 0 })
            },
            old(self)@.len > max_transfer() ==> {
                &&& r == Err::<(usize, usize), Error>(Error::Fault)
                &&& final(self)@ == old(self)@
            },
    {
        let count = self.len;
        match self.read(count) {
            Ok(start) => Ok((start, count)),
            Err(e) => Err(e),
        }
    }
}

impl KernelSlicePtrWriter {
    /// Number of bytes that can still be written.
    pub fn len(&self) -> (r: usize)
        ensures
            r == self@.len,
    {
        self.len
    }

    /// True when no byte can be written any more.
    pub fn is_empty(&self) -> (r: bool)
        ensures
            r == (self@.len == 0),
    {
        self.len() == 0
    }

    /// Reserves room for `data`: on success hands back the address `data` is
    /// to be copied to and moves the cursor past it. Data longer than the room
    /// left, or than `u32::MAX`, gives `EFAULT` and leaves the cursor as it was.
    pub fn write(&mut self, data: &[u8]) -> (r: KernelResult<usize>)
        ensures
            data@.len() <= old(self)@.len && data@.len() <= max_transfer() ==> {
                &&& r == Ok::<usize, Error>(old(self)@.addr)
                &&& final(self)@ == (Cursor {
                    addr: advance(old(self)@.addr, data@.len() as usize),
                    len: (old(self)@.len - data@.len()) as usize,
                })
            },
            !(data@.len() <= old(self)@.len && data@.len() <= max_transfer()) ==> {
                &&& r == Err::<usize, Error>(Error::Fault)
                &&& final(self)@ == old(self)@
            },
    {
        let count = data.len();
        if count > self.len || count > 0xffff_ffffusize {
            return Err(Error::Fault);
        }
        let start = self.addr;
        self.addr = self.addr.wrapping_add(count);
        self.len = self.len - count;
        Ok(start)
    }
}

/// A reader over a range of user memory.
pub struct UserSliceReader {
    ptr: usize,
    length: usize,
}

impl View for UserSliceReader {
    type V = Cursor;

    closed spec fn view(&self) -> Cursor {
        Cursor { addr: self.ptr, len: self.length }
    }
}

impl UserSliceReader {
    /// A reader over the `length` bytes of user memory at `ptr`.
    pub fn new(ptr: usize, length: usize) -> (r: Self)
        ensures
            r@ == (Cursor { addr: ptr, len: length }),
    {
        UserSliceReader { ptr, length }
    }

    /// Skips `num_skip` bytes; skipping more than are left gives `EFAULT` and
    /// leaves the reader as it was.
    pub fn skip(&mut self, num_skip: usize) -> (r: KernelResult<()>)
        ensures
            num_skip <= old(self)@.len ==> {
                &&& r is Ok
                &&& final(self)@ == (Cursor {
                    addr: advance(old(self)@.addr, num_skip),
                    len: (old(self)@.len - num_skip) as usize,
                })
            },
            num_skip > old(self)@.len ==> {
                &&& r == Err::<(), Error>(Error::Fault)
                &&& final(self)@ == old(self)@
            },
    {
        match self.length.checked_sub(num_skip) {
            Some(l) => {
                self.length = l;
                self.ptr = self.ptr.wrapping_add(num_skip);
                Ok(())
            },
            None => Err(Error::Fault),
        }
    }

    /// A second reader over the same range; reading from it does not move this one.
    pub fn clone_reader(&self) -> (r: UserSliceReader)
        ensures
            r@ == self@,
    {
        UserSliceReader { ptr: self.ptr, length: self.length }
    }

    /// Number of bytes left to read.
    pub fn len(&self) -> (r: usize)
        ensures
            r == self@.len,
    {
        self.length
    }

    /// True when no byte is left to read.
    pub fn is_empty(&self) -> (r: bool)
        ensures
            r == (self@.len == 0),
    {
        self.length == 0
    }

    /// First half of reading `len` bytes: more bytes than are left give
    /// `EFAULT`; otherwise the user address to copy from is handed back.
    pub fn read_start(&self, len: usize) -> (r: KernelResult<usize>)
        ensures
            len <= self@.len ==> r == Ok::<usize, Error>(self@.addr),
            len > self@.len ==> r == Err::<usize, Error>(Error::Fault),
    {
        if len > self.length {
            return Err(Error::Fault);
        }
        Ok(self.ptr)
    }

    /// Second half of reading `len` bytes, given the number of bytes the copy
    /// from user memory could not transfer: any shortfall gives `EFAULT` and
    /// leaves the reader as it was; a full copy moves the reader past the bytes.
    pub fn read_finish(&mut self, len: usize, not_copied: u64) -> (r: KernelResult<()>)
        requires
            len <= old(self)@.len,
        ensures
            not_copied == 0 ==> {
                &&& r is Ok
                &&& final(self)@ == (Cursor {
                    addr: advance(old(self)@.addr, len),
                    len: (old(self)@.len - len) as usize,
                })
            },
            not_copied != 0 ==> {
                &&& r == Err::<(), Error>(Error::Fault)
                &&& final(self)@ == old(self)@
            },
    {
        if not_copied != 0 {
            return Err(Error::Fault);
        }
        self.ptr = self.ptr.wrapping_add(len);
        self.length = self.length - len;
        Ok(())
    }
}

/// Skipping `a` bytes and then `b` bytes leaves a user reader where skipping
/// `a + b` bytes at once would.
pub proof fn lemma_skip_composes(start: Cursor, a: usize, b: usize)
    requires
        a + b <= start.len,
    ensures
        advance(advance(start.addr, a), b) == advance(start.addr, (a + b) as usize),
        (start.len - a - b) as usize == (start.len - (a + b) as usize) as usize,
{
    assert(advance(advance(start.addr, a), b) == advance(start.addr, (a + b) as usize)) by (nonlinear_arith)
        requires
            a + b <= usize::MAX,
    {
    }
}

} // verus!
