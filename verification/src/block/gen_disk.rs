//! Configuration of a generic disk before it is handed to the block layer.

use vstd::prelude::*;
use crate::error::{Error, KernelResult};

verus! {

/// Page size of the target (`1 << PAGE_SHIFT` with a `PAGE_SHIFT` of 12).
pub const PAGE_SIZE: u32 = 4096;

/// `x` is a power of two: `x == 2^k` for some `k >= 0`.
pub open spec fn is_pow2(x: int) -> bool
    decreases x,
{
    if x <= 0 {
        false
    } else if x == 1 {
        true
    } else {
        x % 2 == 0 && is_pow2(x / 2)
    }
}

/// `u32::is_power_of_two`: true exactly when the value is `2^k` for some `k`.
#[verifier::external_body]
fn u32_is_power_of_two(x: u32) -> (r: bool)
    ensures
        r == is_pow2(x as int),
{
    x.is_power_of_two()
}

/// A block size is accepted when it lies in `512..=PAGE_SIZE` and is a power of two.
pub open spec fn valid_block_size(size: u32) -> bool {
    512 <= size <= PAGE_SIZE && is_pow2(size as int)
}

/// The parameters a [`GenDiskBuilder`] holds.
pub struct DiskParams {
    pub rotational: bool,
    pub logical_block_size: u32,
    pub physical_block_size: u32,
    pub capacity_sectors: u64,
    pub virt_boundary_mask: u64,
    pub max_segments: u16,
    pub max_hw_sectors: u32,
}

/// The queue limits that are applied to the request queue of a new disk.
#[derive(Clone, Copy, Debug, PartialEq, Eq, Structural)]
pub struct QueueLimits {
    pub logical_block_size: u32,
    pub physical_block_size: u32,
    pub max_hw_sectors: u32,
    pub max_segments: u16,
    pub virt_boundary_mask: u64,
}

/// One step of bringing up a disk, in the order in which they are applied.
#[derive(Clone, Copy, Debug, PartialEq, Eq, Structural)]
pub enum DiskSetup {
    /// Tell the block layer the capacity, in 512-byte sectors.
    SetCapacity(u64),
    /// Register the disk with the VFS.
    AddDisk,
    /// Set the queue's logical block size.
    LogicalBlockSize(u32),
    /// Set the queue's physical block size.
    PhysicalBlockSize(u32),
    /// Set the queue's virtual boundary mask.
    VirtBoundary(usize),
    /// Set the queue's maximum hardware sectors per request.
    MaxHwSectors(u32),
    /// Set the queue's maximum number of segments.
    MaxSegments(u16),
    /// Change the queue's non-rotational flag.
    Rotational(NonRotFlag),
}

/// Size of the `disk_name` field of a `struct gendisk`, terminating NUL
/// included.
pub const DISK_NAME_LEN: usize = 32;

/// The bytes written into the disk's `disk_name`: the name and a NUL, when
/// they fit; a longer name gives `EINVAL` (the formatter's error).
pub open spec fn disk_name_of(name: Seq<u8>) -> Option<Seq<u8>> {
    if name.len() + 1 <= DISK_NAME_LEN {
        Some(name.push(0u8))
    } else {
        None
    }
}

/// The name written into a new disk when it is built: the formatted `name` followed
/// by a NUL; a name that leaves no room for the NUL in `DISK_NAME_LEN`
/// bytes gives `EINVAL`.
pub fn disk_name(name: &[u8]) -> (r: KernelResult<Vec<u8>>)
    ensures
        match r {
            Ok(v) => disk_name_of(name@) == Some(v@),
            Err(e) => disk_name_of(name@) is None && e == Error::Inval,
        },
{
    if name.len() >= DISK_NAME_LEN {
        return Err(Error::Inval);
    }
    let mut v: Vec<u8> = Vec::new();
    let mut i: usize = 0;
    while i < name.len()
        invariant
            i <= name@.len(),
            v@ == name@.subrange(0, i as int),
        decreases name.len() - i,
    {
        v.push(name[i]);
        i = i + 1;
        assert(v@ =~= name@.subrange(0, i as int));
    }
    assert(v@ =~= name@);
    v.push(0u8);
    Ok(v)
}

/// A builder for a generic disk.
pub struct GenDiskBuilder {
    rotational: bool,
    logical_block_size: u32,
    physical_block_size: u32,
    capacity_sectors: u64,
    virt_boundary_mask: u64,
    max_segments: u16,
    max_hw_sectors: u32,
}

impl View for GenDiskBuilder {
    type V = DiskParams;

    closed spec fn view(&self) -> DiskParams {
        DiskParams {
            rotational: self.rotational,
            logical_block_size: self.logical_block_size,
            physical_block_size: self.physical_block_size,
            capacity_sectors: self.capacity_sectors,
            virt_boundary_mask: self.virt_boundary_mask,
            max_segments: self.max_segments,
            max_hw_sectors: self.max_hw_sectors,
        }
    }
}

impl GenDiskBuilder {
    /// Creates a builder with the defaults: not rotational, both block sizes
    /// `PAGE_SIZE`, everything else zero.
    pub fn new() -> (b: Self)
        ensures
            b@ == (DiskParams {
                rotational: false,
                logical_block_size: PAGE_SIZE,
                physical_block_size: PAGE_SIZE,
                capacity_sectors: 0,
                virt_boundary_mask: 0,
                max_segments: 0,
                max_hw_sectors: 0,
            }),
    {
        GenDiskBuilder {
            rotational: false,
            logical_block_size: PAGE_SIZE,
            physical_block_size: PAGE_SIZE,
            capacity_sectors: 0,
            virt_boundary_mask: 0,
            max_segments: 0,
            max_hw_sectors: 0,
        }
    }

    /// Sets the rotational media attribute.
    pub fn rotational(self, rotational: bool) -> (b: Self)
        ensures
            b@ == (DiskParams { rotational, ..self@ }),
    {
        GenDiskBuilder { rotational, ..self }
    }

    /// Checks that a block size is a power of two between 512 and `PAGE_SIZE`.
    fn validate_block_size(size: u32) -> (r: KernelResult<()>)
        ensures
            r is Ok <==> valid_block_size(size),
            r is Err ==> r == Err::<(), Error>(Error::Inval),
    {
        if !(512 <= size && size <= PAGE_SIZE) || !u32_is_power_of_two(size) {
            Err(Error::Inval)
        } else {
            Ok(())
        }
    }

    /// Sets the logical block size; a size that is not a power of two in
    /// `512..=PAGE_SIZE` gives `EINVAL` and the builder is dropped.
    pub fn logical_block_size(self, block_size: u32) -> (r: KernelResult<Self>)
        ensures
            match r {
                Ok(b) => valid_block_size(block_size) && b@ == (DiskParams {
                    logical_block_size: block_size,
                    ..self@
                }),
                Err(e) => !valid_block_size(block_size) && e == Error::Inval,
            },
    {
        match Self::validate_block_size(block_size) {
            Ok(()) => Ok(GenDiskBuilder { logical_block_size: block_size, ..self }),
            Err(e) => Err(e),
        }
    }

    /// Sets the physical block size; a size that is not a power of two in
    /// `512..=PAGE_SIZE` gives `EINVAL` and the builder is dropped.
    pub fn physical_block_size(self, block_size: u32) -> (r: KernelResult<Self>)
        ensures
            match r {
                Ok(b) => valid_block_size(block_size) && b@ == (DiskParams {
                    physical_block_size: block_size,
                    ..self@
                }),
                Err(e) => !valid_block_size(block_size) && e == Error::Inval,
            },
    {
        match Self::validate_block_size(block_size) {
            Ok(()) => Ok(GenDiskBuilder { physical_block_size: block_size, ..self }),
            Err(e) => Err(e),
        }
    }

    /// Sets the capacity in 512-byte sectors.
    pub fn capacity_sectors(self, capacity: u64) -> (b: Self)
        ensures
            b@ == (DiskParams { capacity_sectors: capacity, ..self@ }),
    {
        GenDiskBuilder { capacity_sectors: capacity, ..self }
    }

    /// Sets the virtual boundary mask.
    pub fn virt_boundary_mask(self, boundary_mask: u64) -> (b: Self)
        ensures
            b@ == (DiskParams { virt_boundary_mask: boundary_mask, ..self@ }),
    {
        GenDiskBuilder { virt_boundary_mask: boundary_mask, ..self }
    }

    /// Sets the maximum number of segments.
    pub fn max_segments(self, segments: u16) -> (b: Self)
        ensures
            b@ == (DiskParams { max_segments: segments, ..self@ }),
    {
        GenDiskBuilder { max_segments: segments, ..self }
    }

    /// Sets the maximum number of hardware sectors per request.
    pub fn max_hw_sectors(self, sectors: u32) -> (b: Self)
        ensures
            b@ == (DiskParams { max_hw_sectors: sectors, ..self@ }),
    {
        GenDiskBuilder { max_hw_sectors: sectors, ..self }
    }

    /// Whether the disk to be built is marked rotational.
    pub fn is_rotational(&self) -> (r: bool)
        ensures
            r == self@.rotational,
    {
        self.rotational
    }

    /// The queue limits the disk is built with.
    pub fn queue_limits(&self) -> (l: QueueLimits)
        ensures
            l == (QueueLimits {
                logical_block_size: self@.logical_block_size,
                physical_block_size: self@.physical_block_size,
                max_hw_sectors: self@.max_hw_sectors,
                max_segments: self@.max_segments,
                virt_boundary_mask: self@.virt_boundary_mask,
            }),
    {
        QueueLimits {
            logical_block_size: self.logical_block_size,
            physical_block_size: self.physical_block_size,
            max_hw_sectors: self.max_hw_sectors,
            max_segments: self.max_segments,
            virt_boundary_mask: self.virt_boundary_mask,
        }
    }

    /// The steps that bring the disk up once it has been allocated and named
    /// (see [`disk_name`]): capacity, registration, the queue settings, then
    /// the rotational attribute: a disk built non-rotational gets the
    /// non-rotational flag raised, a rotational one gets it lowered.
    pub fn setup_steps(&self) -> (s: Vec<DiskSetup>)
        ensures
            s@ == seq![
                DiskSetup::SetCapacity(self@.capacity_sectors),
                DiskSetup::AddDisk,
                DiskSetup::LogicalBlockSize(self@.logical_block_size),
                DiskSetup::PhysicalBlockSize(self@.physical_block_size),
                DiskSetup::VirtBoundary(self@.virt_boundary_mask as usize),
                DiskSetup::MaxHwSectors(self@.max_hw_sectors),
                DiskSetup::MaxSegments(self@.max_segments),
                DiskSetup::Rotational(if self@.rotational { NonRotFlag::Lower } else { NonRotFlag::Raise }),
            ],
    {
        let mut s = Vec::new();
        s.push(DiskSetup::SetCapacity(self.capacity_sectors));
        s.push(DiskSetup::AddDisk);
        s.push(DiskSetup::LogicalBlockSize(self.logical_block_size));
        s.push(DiskSetup::PhysicalBlockSize(self.physical_block_size));
        s.push(DiskSetup::VirtBoundary(self.virt_boundary_mask as usize));
        s.push(DiskSetup::MaxHwSectors(self.max_hw_sectors));
        s.push(DiskSetup::MaxSegments(self.max_segments));
        s.push(DiskSetup::Rotational(if self.rotational { NonRotFlag::Lower } else { NonRotFlag::Raise }));
        s
    }
}

/// How the non-rotational queue flag is changed.
#[derive(Clone, Copy, Debug, PartialEq, Eq, Structural)]
pub enum NonRotFlag {
    /// Set `QUEUE_FLAG_NONROT`.
    Raise,
    /// Clear `QUEUE_FLAG_NONROT`.
    Lower,
}

/// A generic disk registered with the block layer, held by the address of its
/// `struct gendisk`.
pub struct GenDisk {
    gendisk: usize,
}

impl GenDisk {
    /// The address of the `struct gendisk` this value stands for.
    pub closed spec fn raw_spec(&self) -> usize {
        self.gendisk
    }

    /// Wraps the address of an allocated `struct gendisk`.
    pub fn from_raw(gendisk: usize) -> (d: Self)
        ensures
            d.raw_spec() == gendisk,
    {
        GenDisk { gendisk }
    }

    /// The address of the `struct gendisk`.
    pub fn as_raw(&self) -> (r: usize)
        ensures
            r == self.raw_spec(),
    {
        self.gendisk
    }

    /// How setting the rotational attribute changes the disk's queue: a
    /// non-rotational disk gets `QUEUE_FLAG_NONROT` raised, a rotational one
    /// gets it lowered.
    pub fn set_rotational(&self, rotational: bool) -> (f: NonRotFlag)
        ensures
            f == (if rotational { NonRotFlag::Lower } else { NonRotFlag::Raise }),
    {
        if !rotational {
            NonRotFlag::Raise
        } else {
            NonRotFlag::Lower
        }
    }
}

} // verus!
