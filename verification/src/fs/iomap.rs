//! Maps from a file's address space to a block device (`struct iomap`).

use vstd::prelude::*;

verus! {

/// The type of a mapping.
#[derive(Clone, Copy, Debug, PartialEq, Eq, Structural)]
pub enum Type {
    /// No blocks allocated, need allocation.
    Hole,
    /// Delayed allocation blocks.
    DelAlloc,
    /// Blocks allocated at the given address.
    Mapped,
    /// Blocks allocated at the given address in unwritten state.
    Unwritten,
    /// Data inline in the inode.
    Inline,
}

impl Type {
    /// The `IOMAP_*` type number of the kernel.
    pub open spec fn raw_spec(self) -> u16 {
        match self {
            Type::Hole => 0,
            Type::DelAlloc => 1,
            Type::Mapped => 2,
            Type::Unwritten => 3,
            Type::Inline => 4,
        }
    }

    /// The `IOMAP_*` type number of the kernel.
    pub fn to_raw(self) -> (r: u16)
        ensures
            r == self.raw_spec(),
    {
        match self {
            Type::Hole => 0,
            Type::DelAlloc => 1,
            Type::Mapped => 2,
            Type::Unwritten => 3,
            Type::Inline => 4,
        }
    }
}

/// The newly allocated blocks need zeroing where no data is copied to.
pub const IOMAP_F_NEW: u16 = 0x01;
/// The inode has uncommitted metadata needed to access written data.
pub const IOMAP_F_DIRTY: u16 = 0x02;
/// The blocks are shared and will need to be unshared as part of a write.
pub const IOMAP_F_SHARED: u16 = 0x04;
/// The mapping merges several block mappings.
pub const IOMAP_F_MERGED: u16 = 0x08;
/// The file system requires buffer heads for this mapping.
pub const IOMAP_F_BUFFER_HEAD: u16 = 0x10;
/// The mapping is for an extended attribute extent.
pub const IOMAP_F_XATTR: u16 = 0x20;
/// The file size changed as the result of this write.
pub const IOMAP_F_SIZE_CHANGED: u16 = 0x100;
/// The mapping is no longer valid and the range must be remapped.
pub const IOMAP_F_STALE: u16 = 0x200;
/// Flags from this value up are for file system specific use.
pub const IOMAP_F_PRIVATE: u16 = 0x1000;

/// Writing, must allocate blocks.
pub const IOMAP_WRITE: u32 = 1;
/// Zeroing operation, may skip holes.
pub const IOMAP_ZERO: u32 = 2;
/// Report extent status, e.g. FIEMAP.
pub const IOMAP_REPORT: u32 = 4;
/// Mapping for page fault.
pub const IOMAP_FAULT: u32 = 8;
/// Direct I/O.
pub const IOMAP_DIRECT: u32 = 16;
/// Do not block.
pub const IOMAP_NOWAIT: u32 = 32;
/// Only pure overwrites allowed.
pub const IOMAP_OVERWRITE_ONLY: u32 = 64;
/// `unshare_file_range`.
pub const IOMAP_UNSHARE: u32 = 128;
/// DAX mapping.
pub const IOMAP_DAX: u32 = 256;

/// A map from a file's address space to a block device; the block device is
/// held by the address of its `struct block_device`, zero for none.
#[derive(Clone, Copy, Debug, PartialEq, Eq, Structural)]
pub struct IoMap {
    pub type_: u16,
    pub offset: i64,
    pub length: u64,
    pub flags: u16,
    pub addr: u64,
    pub bdev: usize,
}

impl IoMap {
    /// Sets the map type.
    pub fn set_type(&mut self, t: Type) -> (r: &mut Self)
        ensures
            *r == (IoMap { type_: t.raw_spec(), ..*old(self) }),
            *final(self) == *final(r),
    {
        self.type_ = t.to_raw();
        self
    }

    /// Sets the file offset, in bytes.
    pub fn set_offset(&mut self, v: i64) -> (r: &mut Self)
        ensures
            *r == (IoMap { offset: v, ..*old(self) }),
            *final(self) == *final(r),
    {
        self.offset = v;
        self
    }

    /// Sets the length of the mapping, in bytes.
    pub fn set_length(&mut self, len: u64) -> (r: &mut Self)
        ensures
            *r == (IoMap { length: len, ..*old(self) }),
            *final(self) == *final(r),
    {
        self.length = len;
        self
    }

    /// Sets the mapping flags (the `IOMAP_F_*` values).
    pub fn set_flags(&mut self, flags: u16) -> (r: &mut Self)
        ensures
            *r == (IoMap { flags, ..*old(self) }),
            *final(self) == *final(r),
    {
        self.flags = flags;
        self
    }

    /// Sets the disk offset of the mapping, in bytes.
    pub fn set_addr(&mut self, addr: u64) -> (r: &mut Self)
        ensures
            *r == (IoMap { addr, ..*old(self) }),
            *final(self) == *final(r),
    {
        self.addr = addr;
        self
    }

    /// Sets the block device of the mapping, given by the address of its
    /// `struct block_device`; none stores a null pointer.
    pub fn set_bdev(&mut self, bdev: Option<usize>) -> (r: &mut Self)
        ensures
            *r == (IoMap {
                bdev: match bdev {
                    Some(b) => b,
                    None => 0usize,
                },
                ..*old(self)
            }),
            *final(self) == *final(r),
    {
        self.bdev = match bdev {
            Some(b) => b,
            None => 0,
        };
        self
    }
}

} // verus!
