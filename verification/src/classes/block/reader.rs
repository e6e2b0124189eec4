//! The order in which the sysfs attributes and other sources of a disk or a
//! partition are read, and what each answer decides: a reader that asks for
//! one thing at a time and is handed back what was found.

use vstd::prelude::*;
use crate::classes::block::disk::{fallback_space_info, number_or_zero, SpaceInfo};
use crate::classes::block::superblock::{FileSystem, UuidBytes};
use crate::text::{parse_unsigned, parse_usize};

verus! {

/// An attribute file in the sysfs directory of a block device.
#[derive(Copy, Clone, Debug, PartialEq, Eq, Structural)]
pub enum BlockAttribute {
    Model,
    Vendor,
    Partition,
    Size,
    HwSectorSize,
}

impl BlockAttribute {
    /// The path of the attribute, relative to the device's directory.
    pub fn path(&self) -> (r: &'static str)
        ensures
            r@ == match self {
                BlockAttribute::Model => "device/model"@,
                BlockAttribute::Vendor => "device/vendor"@,
                BlockAttribute::Partition => "partition"@,
                BlockAttribute::Size => "size"@,
                BlockAttribute::HwSectorSize => "queue/hw_sector_size"@,
            },
    {
        match self {
            BlockAttribute::Model => "device/model",
            BlockAttribute::Vendor => "device/vendor",
            BlockAttribute::Partition => "partition",
            BlockAttribute::Size => "size",
            BlockAttribute::HwSectorSize => "queue/hw_sector_size",
        }
    }
}

/// Whether a reader reads a whole disk or a partition.
#[derive(Copy, Clone, Debug, PartialEq, Eq, Structural)]
pub enum NodeKind {
    Disk,
    Partition,
}

/// What a reader asks for next.
#[derive(Copy, Clone, Debug, PartialEq, Eq, Structural)]
pub enum ReadAction {
    /// Read an attribute of the device; answer [`ReadEvent::Attribute`].
    ReadAttribute(BlockAttribute),
    /// List the disk's partitions; answer [`ReadEvent::Partitions`] with
    /// their number.
    FindPartitions,
    /// Probe the device node for a file system; answer
    /// [`ReadEvent::FileSystem`], `None` where the probe failed.
    ProbeFileSystem,
    /// Look the device node up in `/proc/mounts`; answer
    /// [`ReadEvent::Mount`] with whether it is mounted.
    FindMount,
    /// Ask `statvfs` for the space of the mount point; answer
    /// [`ReadEvent::Space`].
    StatMount,
    /// Look up the identifier of the partition with this number; answer
    /// [`ReadEvent::Uuid`], `None` where it could not be found.
    ReadPartitionUuid(usize),
    /// The reading is complete.
    Finish,
    /// The device's size in bytes overflows a `u64`: the reading fails.
    SpaceOverflow,
}

/// What was found for the last thing a reader asked for.
#[derive(Debug)]
pub enum ReadEvent {
    Attribute(Option<String>),
    Partitions(usize),
    FileSystem(Option<FileSystem>),
    Mount(bool),
    Space(Option<SpaceInfo>),
    Uuid(Option<UuidBytes>),
}

/// What a reader is waiting for.
#[derive(Copy, Clone, Debug, PartialEq, Eq, Structural)]
pub enum ReaderPhase {
    Model,
    Vendor,
    Partitions,
    FileSystem,
    Number,
    Mount,
    Stat,
    Size,
    SectorSize,
    Uuid,
    Done,
    Overflowed,
}

/// A disk or a partition being read, and what has been found so far.
#[derive(Debug)]
pub struct NodeReader {
    pub kind: NodeKind,
    pub phase: ReaderPhase,
    pub model: Option<String>,
    pub vendor: Option<String>,
    pub number: Option<String>,
    pub file_system: Option<FileSystem>,
    pub space_info: Option<SpaceInfo>,
    pub sectors: Option<String>,
    pub uuid: Option<UuidBytes>,
}

/// Whether `e` answers what a reader in phase `p` waits for.
pub open spec fn awaits(p: ReaderPhase, e: ReadEvent) -> bool {
    match p {
        ReaderPhase::Model | ReaderPhase::Vendor | ReaderPhase::Number | ReaderPhase::Size
        | ReaderPhase::SectorSize => e is Attribute,
        ReaderPhase::Partitions => e is Partitions,
        ReaderPhase::FileSystem => e is FileSystem,
        ReaderPhase::Mount => e is Mount,
        ReaderPhase::Stat => e is Space,
        ReaderPhase::Uuid => e is Uuid,
        ReaderPhase::Done | ReaderPhase::Overflowed => true,
    }
}

/// The text of an attribute read, as its view.
pub open spec fn text_of(v: Option<String>) -> Option<Seq<char>> {
    match v {
        Some(s) => Some(s@),
        None => None,
    }
}

/// The partition number that a `partition` attribute names, if it holds a
/// number.
pub open spec fn number_of(number: Option<String>) -> Option<usize> {
    match number {
        Some(s) => match parse_unsigned(s@, usize::MAX as nat) {
            Some(v) => Some(v as usize),
            None => None,
        },
        None => None,
    }
}

/// What a reader asks for once the space of its device is known: a
/// partition whose number could be read goes on to its identifier; the
/// reading is otherwise complete.
pub open spec fn after_space(kind: NodeKind, number: Option<String>) -> (ReaderPhase, ReadAction) {
    match kind {
        NodeKind::Disk => (ReaderPhase::Done, ReadAction::Finish),
        NodeKind::Partition => match number_of(number) {
            Some(p) => (ReaderPhase::Uuid, ReadAction::ReadPartitionUuid(p)),
            None => (ReaderPhase::Done, ReadAction::Finish),
        },
    }
}

/// The next state of a reader in state `r`, and what it asks for, once it
/// is handed `e`. A disk reads its model and vendor, lists its partitions,
/// probes for a file system only when it has partitions, then looks for its
/// mount point. A partition probes for a file system, reads its number,
/// then looks for its mount point. A mounted device takes its space from
/// `statvfs`; one that is not mounted counts its size from its `size` and
/// `queue/hw_sector_size` attributes (a value that is not a number counts as
/// 0, and a missing one makes the size 0). A partition whose number could
/// be read ends by looking up its identifier.
pub open spec fn reader_next(r: NodeReader, e: ReadEvent) -> (NodeReader, ReadAction) {
    match r.phase {
        ReaderPhase::Model => (
            NodeReader { phase: ReaderPhase::Vendor, model: e->Attribute_0, ..r },
            ReadAction::ReadAttribute(BlockAttribute::Vendor),
        ),
        ReaderPhase::Vendor => (
            NodeReader { phase: ReaderPhase::Partitions, vendor: e->Attribute_0, ..r },
            ReadAction::FindPartitions,
        ),
        ReaderPhase::Partitions => if e->Partitions_0 > 0 {
            (NodeReader { phase: ReaderPhase::FileSystem, ..r }, ReadAction::ProbeFileSystem)
        } else {
            (NodeReader { phase: ReaderPhase::Mount, ..r }, ReadAction::FindMount)
        },
        ReaderPhase::FileSystem => match r.kind {
            NodeKind::Disk => (
                NodeReader { phase: ReaderPhase::Mount, file_system: e->FileSystem_0, ..r },
                ReadAction::FindMount,
            ),
            NodeKind::Partition => (
                NodeReader { phase: ReaderPhase::Number, file_system: e->FileSystem_0, ..r },
                ReadAction::ReadAttribute(BlockAttribute::Partition),
            ),
        },
        ReaderPhase::Number => (
            NodeReader { phase: ReaderPhase::Mount, number: e->Attribute_0, ..r },
            ReadAction::FindMount,
        ),
        ReaderPhase::Mount => if e->Mount_0 {
            (NodeReader { phase: ReaderPhase::Stat, ..r }, ReadAction::StatMount)
        } else {
            (
                NodeReader { phase: ReaderPhase::Size, ..r },
                ReadAction::ReadAttribute(BlockAttribute::Size),
            )
        },
        ReaderPhase::Stat => {
            let next = after_space(r.kind, r.number);
            (NodeReader { phase: next.0, space_info: e->Space_0, ..r }, next.1)
        },
        ReaderPhase::Size => (
            NodeReader { phase: ReaderPhase::SectorSize, sectors: e->Attribute_0, ..r },
            ReadAction::ReadAttribute(BlockAttribute::HwSectorSize),
        ),
        ReaderPhase::SectorSize => {
            let total = match (r.sectors, e->Attribute_0) {
                (Some(s), Some(z)) => number_or_zero(s@) * number_or_zero(z@),
                _ => 0,
            };
            if total > u64::MAX {
                (NodeReader { phase: ReaderPhase::Overflowed, ..r }, ReadAction::SpaceOverflow)
            } else {
                let next = after_space(r.kind, r.number);
                (
                    NodeReader {
                        phase: next.0,
                        space_info: Some(
                            SpaceInfo { total_space: total as u64, free_space: 0, used_space: 0 },
                        ),
                        ..r
                    },
                    next.1,
                )
            }
        },
        ReaderPhase::Uuid => (
            NodeReader { phase: ReaderPhase::Done, uuid: e->Uuid_0, ..r },
            ReadAction::Finish,
        ),
        ReaderPhase::Done => (r, ReadAction::Finish),
        ReaderPhase::Overflowed => (r, ReadAction::SpaceOverflow),
    }
}

/// How many requests a reader in phase `p` can still make at most.
pub open spec fn steps_left(p: ReaderPhase) -> nat {
    match p {
        ReaderPhase::Model => 10,
        ReaderPhase::Vendor => 9,
        ReaderPhase::Partitions => 8,
        ReaderPhase::FileSystem => 7,
        ReaderPhase::Number => 6,
        ReaderPhase::Mount => 5,
        ReaderPhase::Size => 4,
        ReaderPhase::SectorSize => 3,
        ReaderPhase::Stat => 2,
        ReaderPhase::Uuid => 1,
        ReaderPhase::Done | ReaderPhase::Overflowed => 0,
    }
}

/// Whether `e` is what doing action `a` gives.
pub open spec fn answers(a: ReadAction, e: ReadEvent) -> bool {
    match a {
        ReadAction::ReadAttribute(_) => e is Attribute,
        ReadAction::FindPartitions => e is Partitions,
        ReadAction::ProbeFileSystem => e is FileSystem,
        ReadAction::FindMount => e is Mount,
        ReadAction::StatMount => e is Space,
        ReadAction::ReadPartitionUuid(_) => e is Uuid,
        ReadAction::Finish | ReadAction::SpaceOverflow => true,
    }
}

/// Every step of a reading brings it closer to its end, and the reading
/// ends exactly when the reader asks to finish or reports an overflow.
pub proof fn law_reading_ends(r: NodeReader, e: ReadEvent)
    ensures
        steps_left(r.phase) > 0 ==> steps_left(reader_next(r, e).0.phase) < steps_left(r.phase),
        (reader_next(r, e).1 == ReadAction::Finish || reader_next(r, e).1
            == ReadAction::SpaceOverflow) <==> steps_left(reader_next(r, e).0.phase) == 0,
{
}

/// Doing each action that a reader asks for, and handing back what it gave,
/// always hands the reader an event that it waits for.
pub proof fn law_reader_events_follow_actions(r: NodeReader, e: ReadEvent, next: ReadEvent)
    requires
        awaits(r.phase, e),
        answers(reader_next(r, e).1, next),
    ensures
        awaits(reader_next(r, e).0.phase, next),
{
}

/// A disk without partitions is not probed for a file system, and a disk
/// is never asked for a partition number or identifier.
pub proof fn law_disk_without_partitions_is_not_probed(r: NodeReader)
    requires
        r.kind == NodeKind::Disk,
        r.phase == ReaderPhase::Partitions,
    ensures
        reader_next(r, ReadEvent::Partitions(0)).1 == ReadAction::FindMount,
        reader_next(r, ReadEvent::Partitions(0)).0.file_system == r.file_system,
        after_space(NodeKind::Disk, r.number) == (ReaderPhase::Done, ReadAction::Finish),
{
}

/// A mounted device takes its space from `statvfs`, and one that is not
/// mounted from its size attributes.
pub proof fn law_mount_decides_space_source(r: NodeReader)
    requires
        r.phase == ReaderPhase::Mount,
    ensures
        reader_next(r, ReadEvent::Mount(true)).1 == ReadAction::StatMount,
        reader_next(r, ReadEvent::Mount(false)).1 == ReadAction::ReadAttribute(
            BlockAttribute::Size,
        ),
{
}

/// A partition whose `partition` attribute holds the number `p` goes on to
/// look up the identifier of partition `p` once its space is known,
/// whether it is mounted (space from `statvfs`) or not (space from its
/// size attributes, when that size fits in a `u64`); being mounted changes
/// only where the space comes from. The identifier that is then found is
/// kept, and the reading ends.
pub proof fn law_partition_identifier_is_looked_up(
    r: NodeReader,
    space: Option<SpaceInfo>,
    sector_size: Option<String>,
    id: Option<UuidBytes>,
    p: nat,
)
    requires
        r.kind == NodeKind::Partition,
        r.number matches Some(s) && parse_unsigned(s@, usize::MAX as nat) == Some(p),
    ensures
        ({
            let mounted = reader_next(
                NodeReader { phase: ReaderPhase::Stat, ..r },
                ReadEvent::Space(space),
            );
            &&& mounted.1 == ReadAction::ReadPartitionUuid(p as usize)
            &&& mounted.0.phase == ReaderPhase::Uuid
            &&& mounted.0.space_info == space
        }),
        ({
            let unmounted = reader_next(
                NodeReader { phase: ReaderPhase::SectorSize, ..r },
                ReadEvent::Attribute(sector_size),
            );
            unmounted.1 != ReadAction::SpaceOverflow ==> unmounted.1 == ReadAction::ReadPartitionUuid(
                p as usize,
            ) && unmounted.0.phase == ReaderPhase::Uuid
        }),
        ({
            let found = reader_next(NodeReader { phase: ReaderPhase::Uuid, ..r }, ReadEvent::Uuid(id));
            found.0.uuid == id && found.1 == ReadAction::Finish
        }),
{
}

/// A disk, and a partition whose `partition` attribute holds no number,
/// end their reading once the space is known, mounted or not.
pub proof fn law_reading_without_number_ends_with_space(r: NodeReader, space: Option<SpaceInfo>)
    requires
        r.kind == NodeKind::Disk || r.number is None || (r.number matches Some(s) && parse_unsigned(
            s@,
            usize::MAX as nat,
        ) is None),
    ensures
        reader_next(NodeReader { phase: ReaderPhase::Stat, ..r }, ReadEvent::Space(space)).1
            == ReadAction::Finish,
{
}

fn copy_text(v: &Option<String>) -> (r: Option<String>)
    ensures
        r == *v,
{
    match v {
        Some(s) => Some(s.clone()),
        None => None,
    }
}

fn next_after_space(kind: NodeKind, number: &Option<String>) -> (r: (ReaderPhase, ReadAction))
    ensures
        r == after_space(kind, *number),
{
    match kind {
        NodeKind::Disk => (ReaderPhase::Done, ReadAction::Finish),
        NodeKind::Partition => {
            let parsed = match number {
                Some(s) => parse_usize(s.as_str()),
                None => None,
            };
            match parsed {
                Some(p) => (ReaderPhase::Uuid, ReadAction::ReadPartitionUuid(p)),
                None => (ReaderPhase::Done, ReadAction::Finish),
            }
        },
    }
}

impl NodeReader {
    /// A reader for a disk or a partition, and what it asks for first: a
    /// disk's model, or a partition's file system.
    pub fn begin(kind: NodeKind) -> (r: (NodeReader, ReadAction))
        ensures
            r.0.kind == kind,
            r.0.model is None && r.0.vendor is None && r.0.number is None,
            r.0.file_system is None && r.0.space_info is None,
            r.0.sectors is None && r.0.uuid is None,
            kind == NodeKind::Disk ==> r.0.phase == ReaderPhase::Model && r.1
                == ReadAction::ReadAttribute(BlockAttribute::Model),
            kind == NodeKind::Partition ==> r.0.phase == ReaderPhase::FileSystem && r.1
                == ReadAction::ProbeFileSystem,
    {
        let (phase, action) = match kind {
            NodeKind::Disk => (ReaderPhase::Model, ReadAction::ReadAttribute(BlockAttribute::Model)),
            NodeKind::Partition => (ReaderPhase::FileSystem, ReadAction::ProbeFileSystem),
        };
        (
            NodeReader {
                kind,
                phase,
                model: None,
                vendor: None,
                number: None,
                file_system: None,
                space_info: None,
                sectors: None,
                uuid: None,
            },
            action,
        )
    }

    /// Takes what was found for the last request, and gives the next one,
    /// as [`reader_next`] says.
    pub fn step(self, e: ReadEvent) -> (r: (NodeReader, ReadAction))
        requires
            awaits(self.phase, e),
        ensures
            r == reader_next(self, e),
    {
        let mut r = self;
        match r.phase {
            ReaderPhase::Model => {
                if let ReadEvent::Attribute(v) = e {
                    r.model = v;
                }
                r.phase = ReaderPhase::Vendor;
                (r, ReadAction::ReadAttribute(BlockAttribute::Vendor))
            },
            ReaderPhase::Vendor => {
                if let ReadEvent::Attribute(v) = e {
                    r.vendor = v;
                }
                r.phase = ReaderPhase::Partitions;
                (r, ReadAction::FindPartitions)
            },
            ReaderPhase::Partitions => {
                let count = match e {
                    ReadEvent::Partitions(n) => n,
                    _ => 0,
                };
                if count > 0 {
                    r.phase = ReaderPhase::FileSystem;
                    (r, ReadAction::ProbeFileSystem)
                } else {
                    r.phase = ReaderPhase::Mount;
                    (r, ReadAction::FindMount)
                }
            },
            ReaderPhase::FileSystem => {
                if let ReadEvent::FileSystem(f) = e {
                    r.file_system = f;
                }
                match r.kind {
                    NodeKind::Disk => {
                        r.phase = ReaderPhase::Mount;
                        (r, ReadAction::FindMount)
                    },
                    NodeKind::Partition => {
                        r.phase = ReaderPhase::Number;
                        (r, ReadAction::ReadAttribute(BlockAttribute::Partition))
                    },
                }
            },
            ReaderPhase::Number => {
                if let ReadEvent::Attribute(v) = e {
                    r.number = v;
                }
                r.phase = ReaderPhase::Mount;
                (r, ReadAction::FindMount)
            },
            ReaderPhase::Mount => {
                let mounted = match e {
                    ReadEvent::Mount(b) => b,
                    _ => false,
                };
                if mounted {
                    r.phase = ReaderPhase::Stat;
                    (r, ReadAction::StatMount)
                } else {
                    r.phase = ReaderPhase::Size;
                    (r, ReadAction::ReadAttribute(BlockAttribute::Size))
                }
            },
            ReaderPhase::Stat => {
                if let ReadEvent::Space(s) = e {
                    r.space_info = s;
                }
                let (phase, action) = next_after_space(r.kind, &r.number);
                r.phase = phase;
                (r, action)
            },
            ReaderPhase::Size => {
                if let ReadEvent::Attribute(v) = e {
                    r.sectors = v;
                }
                r.phase = ReaderPhase::SectorSize;
                (r, ReadAction::ReadAttribute(BlockAttribute::HwSectorSize))
            },
            ReaderPhase::SectorSize => {
                let sector_size = match e {
                    ReadEvent::Attribute(v) => v,
                    _ => None,
                };
                match fallback_space_info(copy_text(&r.sectors), sector_size) {
                    Some(info) => {
                        r.space_info = Some(info);
                        let (phase, action) = next_after_space(r.kind, &r.number);
                        r.phase = phase;
                        (r, action)
                    },
                    None => {
                        r.phase = ReaderPhase::Overflowed;
                        (r, ReadAction::SpaceOverflow)
                    },
                }
            },
            ReaderPhase::Uuid => {
                if let ReadEvent::Uuid(u) = e {
                    r.uuid = u;
                }
                r.phase = ReaderPhase::Done;
                (r, ReadAction::Finish)
            },
            ReaderPhase::Done => (r, ReadAction::Finish),
            ReaderPhase::Overflowed => (r, ReadAction::SpaceOverflow),
        }
    }
}

} // verus!
