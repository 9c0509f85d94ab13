use kernel_tcb::block::gen_disk::{disk_name, DiskSetup, GenDisk, GenDiskBuilder, NonRotFlag, QueueLimits, PAGE_SIZE};
use kernel_tcb::error::Error;

#[test]
fn new_builder_has_page_sized_blocks() {
    let b = GenDiskBuilder::new();
    assert!(!b.is_rotational());
    assert_eq!(
        b.queue_limits(),
        QueueLimits {
            logical_block_size: PAGE_SIZE,
            physical_block_size: PAGE_SIZE,
            max_hw_sectors: 0,
            max_segments: 0,
            virt_boundary_mask: 0,
        }
    );
}

#[test]
fn block_sizes_in_range_and_power_of_two_are_accepted() {
    for size in [512u32, 1024, 2048, 4096] {
        let b = GenDiskBuilder::new().logical_block_size(size).unwrap();
        assert_eq!(b.queue_limits().logical_block_size, size);
        let b = GenDiskBuilder::new().physical_block_size(size).unwrap();
        assert_eq!(b.queue_limits().physical_block_size, size);
    }
}

#[test]
fn block_sizes_out_of_range_or_not_power_of_two_are_rejected() {
    for size in [0u32, 1, 256, 511, 513, 1000, 3072, 4095, 8192, u32::MAX] {
        assert!(matches!(GenDiskBuilder::new().logical_block_size(size), Err(Error::Inval)));
        assert!(matches!(GenDiskBuilder::new().physical_block_size(size), Err(Error::Inval)));
    }
}

#[test]
fn setters_change_only_their_field() {
    let b = GenDiskBuilder::new()
        .rotational(true)
        .capacity_sectors(4096 << 11)
        .virt_boundary_mask(0xfff)
        .max_segments(128)
        .max_hw_sectors(1024);
    let b = b.logical_block_size(512).unwrap();
    assert!(b.is_rotational());
    assert_eq!(
        b.queue_limits(),
        QueueLimits {
            logical_block_size: 512,
            physical_block_size: 4096,
            max_hw_sectors: 1024,
            max_segments: 128,
            virt_boundary_mask: 0xfff,
        }
    );
    assert_eq!(
        b.setup_steps(),
        vec![
            DiskSetup::SetCapacity(4096 << 11),
            DiskSetup::AddDisk,
            DiskSetup::LogicalBlockSize(512),
            DiskSetup::PhysicalBlockSize(4096),
            DiskSetup::VirtBoundary(0xfff),
            DiskSetup::MaxHwSectors(1024),
            DiskSetup::MaxSegments(128),
            DiskSetup::Rotational(NonRotFlag::Lower),
        ]
    );
    let d = GenDiskBuilder::new();
    assert_eq!(d.setup_steps().last(), Some(&DiskSetup::Rotational(NonRotFlag::Raise)));
}

#[test]
fn disk_names_fit_with_their_nul() {
    assert_eq!(disk_name(b"rnullb0"), Ok(b"rnullb0\0".to_vec()));
    assert_eq!(disk_name(&[b'a'; 31]).map(|v| v.len()), Ok(32));
    assert_eq!(disk_name(&[b'a'; 32]), Err(Error::Inval));
}

#[test]
fn rotational_flag_is_cleared_for_rotational_disks() {
    let d = GenDisk::from_raw(0xffff_8880_1234_0000);
    assert_eq!(d.set_rotational(false), NonRotFlag::Raise);
    assert_eq!(d.set_rotational(true), NonRotFlag::Lower);
    assert_eq!(d.as_raw(), 0xffff_8880_1234_0000);
}

#[test]
fn errors_map_to_negative_errno() {
    assert_eq!(Error::Inval.to_errno(), -22);
    assert_eq!(Error::Fault.to_errno(), -14);
    assert_eq!(Error::Again.to_errno(), -11);
    assert_eq!(Error::NoMem.to_errno(), -12);
    assert_eq!(Error::Busy.to_errno(), -16);
    assert_eq!(Error::NoSys.to_errno(), -38);
    assert_eq!(Error::NoEnt.to_errno(), -2);
}
