//! Readers for Linux sysfs device classes (block devices, network
//! interfaces and GPIO pins) and for `/proc/diskstats`.

pub mod classes;
pub mod text;
