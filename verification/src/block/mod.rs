//! Block-device configuration.

pub mod gen_disk;
