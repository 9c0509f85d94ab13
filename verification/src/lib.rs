//! Verified core of a Linux kernel-module framework that hosts replaceable
//! "domains": buffer cursors, block-device configuration, PCI and iomap
//! records, page bounds checks, the domain ELF loader's planning, the domain
//! registry and the sysctl command channel that drives it.

pub mod assoc;
pub mod error;
pub mod fs;
pub mod kshim;
pub mod elf;
pub mod loader;
pub mod mm;
pub mod block;
pub mod buf;
pub mod channel;
pub mod device;
pub mod domain;
pub mod pci;
