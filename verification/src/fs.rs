//! File-system helpers.

pub mod iomap;
