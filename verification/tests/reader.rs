use dg_sysfs::classes::block::disk::SpaceInfo;
use dg_sysfs::classes::block::reader::{
    BlockAttribute, NodeKind, NodeReader, ReadAction, ReadEvent, ReaderPhase,
};
use dg_sysfs::classes::block::superblock::FileSystem;

fn attr(s: &str) -> ReadEvent {
    ReadEvent::Attribute(Some(s.to_string()))
}

#[test]
fn unmounted_disk_without_partitions() {
    let (r, a) = NodeReader::begin(NodeKind::Disk);
    assert_eq!(a, ReadAction::ReadAttribute(BlockAttribute::Model));
    let (r, a) = r.step(attr("Samsung SSD"));
    assert_eq!(a, ReadAction::ReadAttribute(BlockAttribute::Vendor));
    let (r, a) = r.step(ReadEvent::Attribute(None));
    assert_eq!(a, ReadAction::FindPartitions);
    let (r, a) = r.step(ReadEvent::Partitions(0));
    assert_eq!(a, ReadAction::FindMount);
    let (r, a) = r.step(ReadEvent::Mount(false));
    assert_eq!(a, ReadAction::ReadAttribute(BlockAttribute::Size));
    let (r, a) = r.step(attr("1000"));
    assert_eq!(a, ReadAction::ReadAttribute(BlockAttribute::HwSectorSize));
    let (r, a) = r.step(attr("512"));
    assert_eq!(a, ReadAction::Finish);
    assert_eq!(r.phase, ReaderPhase::Done);
    assert_eq!(r.model.as_deref(), Some("Samsung SSD"));
    assert_eq!(r.vendor, None);
    assert_eq!(r.file_system, None);
    assert_eq!(r.space_info, Some(SpaceInfo { total_space: 512_000, free_space: 0, used_space: 0 }));
    assert_eq!(r.uuid, None);
}

#[test]
fn mounted_disk_with_partitions() {
    let (r, _) = NodeReader::begin(NodeKind::Disk);
    let (r, _) = r.step(attr("m"));
    let (r, _) = r.step(attr("v"));
    let (r, a) = r.step(ReadEvent::Partitions(2));
    assert_eq!(a, ReadAction::ProbeFileSystem);
    let (r, a) = r.step(ReadEvent::FileSystem(Some(FileSystem::ISO9660)));
    assert_eq!(a, ReadAction::FindMount);
    let (r, a) = r.step(ReadEvent::Mount(true));
    assert_eq!(a, ReadAction::StatMount);
    let info = SpaceInfo { total_space: 10, free_space: 4, used_space: 6 };
    let (r, a) = r.step(ReadEvent::Space(Some(info)));
    assert_eq!(a, ReadAction::Finish);
    assert_eq!(r.file_system, Some(FileSystem::ISO9660));
    assert_eq!(r.space_info, Some(info));
}

#[test]
fn partition_with_number() {
    let (r, a) = NodeReader::begin(NodeKind::Partition);
    assert_eq!(a, ReadAction::ProbeFileSystem);
    let (r, a) = r.step(ReadEvent::FileSystem(None));
    assert_eq!(a, ReadAction::ReadAttribute(BlockAttribute::Partition));
    let (r, a) = r.step(attr("3"));
    assert_eq!(a, ReadAction::FindMount);
    let (r, _) = r.step(ReadEvent::Mount(false));
    let (r, _) = r.step(ReadEvent::Attribute(None));
    let (r, a) = r.step(attr("512"));
    assert_eq!(a, ReadAction::ReadPartitionUuid(3));
    assert_eq!(r.space_info, Some(SpaceInfo { total_space: 0, free_space: 0, used_space: 0 }));
    let (r, a) = r.step(ReadEvent::Uuid(Some([7; 16])));
    assert_eq!(a, ReadAction::Finish);
    assert_eq!(r.uuid, Some([7; 16]));
    assert_eq!(r.number.as_deref(), Some("3"));
}

#[test]
fn partition_without_number_skips_uuid() {
    let (r, _) = NodeReader::begin(NodeKind::Partition);
    let (r, _) = r.step(ReadEvent::FileSystem(None));
    let (r, _) = r.step(attr("x"));
    let (r, _) = r.step(ReadEvent::Mount(true));
    let (_, a) = r.step(ReadEvent::Space(None));
    assert_eq!(a, ReadAction::Finish);
}

#[test]
fn size_overflow() {
    let (r, _) = NodeReader::begin(NodeKind::Partition);
    let (r, _) = r.step(ReadEvent::FileSystem(None));
    let (r, _) = r.step(attr("1"));
    let (r, _) = r.step(ReadEvent::Mount(false));
    let (r, _) = r.step(attr(&u64::MAX.to_string()));
    let (r, a) = r.step(attr("4096"));
    assert_eq!(a, ReadAction::SpaceOverflow);
    assert_eq!(r.phase, ReaderPhase::Overflowed);
}

#[test]
fn attribute_paths() {
    assert_eq!(BlockAttribute::Model.path(), "device/model");
    assert_eq!(BlockAttribute::Vendor.path(), "device/vendor");
    assert_eq!(BlockAttribute::Partition.path(), "partition");
    assert_eq!(BlockAttribute::Size.path(), "size");
    assert_eq!(BlockAttribute::HwSectorSize.path(), "queue/hw_sector_size");
}
