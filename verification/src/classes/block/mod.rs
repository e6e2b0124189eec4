//! Block devices: disks, their partitions, and the other kinds of device
//! found under `/sys/class/block`.

pub mod disk;
pub mod partition_table;
pub mod reader;
pub mod superblock;

use vstd::prelude::*;
use crate::text::{has_prefix, starts_with};

verus! {

/// Name of the block class directory under `/sys/class`.
pub const BLOCK_CLASS: &'static str = "block";

/// What the kernel name of a block device says it is.
#[derive(Copy, Clone, Debug, PartialEq, Eq, Structural)]
pub enum BlockClass {
    /// "loop…": a loopback device.
    Loopback,
    /// "ram…": a RAM disk.
    Ram,
    /// "zram…": a compressed RAM device.
    ZRam,
    /// "dm…": a device-mapper volume.
    DeviceMapper,
    /// Anything else: a disk or a partition.
    Storage,
}

/// The class of the block device called `name`, by the prefixes "loop",
/// "ram", "zram" and "dm", tried in that order.
pub open spec fn block_class_of(name: Seq<char>) -> BlockClass {
    if has_prefix(name, "loop"@) {
        BlockClass::Loopback
    } else if has_prefix(name, "ram"@) {
        BlockClass::Ram
    } else if has_prefix(name, "zram"@) {
        BlockClass::ZRam
    } else if has_prefix(name, "dm"@) {
        BlockClass::DeviceMapper
    } else {
        BlockClass::Storage
    }
}

impl BlockClass {
    /// The class of the block device called `name`.
    pub fn of_name(name: &str) -> (r: BlockClass)
        ensures
            r == block_class_of(name@),
    {
        if starts_with(name, "loop") {
            BlockClass::Loopback
        } else if starts_with(name, "ram") {
            BlockClass::Ram
        } else if starts_with(name, "zram") {
            BlockClass::ZRam
        } else if starts_with(name, "dm") {
            BlockClass::DeviceMapper
        } else {
            BlockClass::Storage
        }
    }
}

} // verus!
