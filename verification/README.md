# dg_sysfs

Reading Linux device information from sysfs and procfs: block devices (disks,
partitions, their file systems, partition identifiers, mount points and space),
the I/O counters of `/proc/diskstats`, network interfaces, and GPIO pins driven
with a software PWM signal.

- `src/` is the library, verified with Verus: the parsers and decisions, each
  with its contract, and the laws that relate them.
  - `text` — Unicode whitespace, fields, trimming, unsigned decimal numbers.
  - `classes::block::disk` — `/proc/diskstats` lines, the map of current and
    previous counters, disk usage, space figures, mount lines, disk kinds.
  - `classes::block::superblock` — recognising a file system from the first
    bytes of a device.
  - `classes::block::partition_table` — GPT and MBR partition identifiers.
  - `classes::block::reader` — the order in which a disk or a partition is
    read, as a reader that asks for one thing at a time.
  - `classes::gpio` — pin values and the PWM signal as a state machine.
  - `classes::net` — link types and the settings of an interface.
- `app/` does the I/O around it with tokio and libc: reading files and
  directories, `statvfs`, the PWM thread, and serde copies of the library's
  types.
- `tests/` runs the library on concrete inputs.
