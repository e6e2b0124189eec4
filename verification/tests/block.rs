use dg_sysfs::classes::block::disk::{
    fallback_space_info, mount_point, partition_number, space_from_statvfs, DiskType, SpaceInfo,
};
use dg_sysfs::classes::block::BlockClass;

#[test]
fn block_classes() {
    assert_eq!(BlockClass::of_name("loop0"), BlockClass::Loopback);
    assert_eq!(BlockClass::of_name("ram1"), BlockClass::Ram);
    assert_eq!(BlockClass::of_name("zram0"), BlockClass::ZRam);
    assert_eq!(BlockClass::of_name("dm-0"), BlockClass::DeviceMapper);
    assert_eq!(BlockClass::of_name("sda"), BlockClass::Storage);
    assert_eq!(BlockClass::of_name("nvme0n1p1"), BlockClass::Storage);
}

#[test]
fn disk_types() {
    assert_eq!(DiskType::from_name("sda"), DiskType::Scsi);
    assert_eq!(DiskType::from_name("nvme0n1"), DiskType::Nvme);
    assert_eq!(DiskType::from_name("vdb"), DiskType::Virtual);
    assert_eq!(DiskType::from_name("hda"), DiskType::Ide);
    assert_eq!(DiskType::from_name("mmcblk0"), DiskType::Emmc);
    assert_eq!(DiskType::from_name("sr0"), DiskType::Optical);
    assert_eq!(DiskType::from_name("xvda"), DiskType::Unknown);
}

#[test]
fn statvfs_space() {
    assert_eq!(
        space_from_statvfs(4096, 1000, 250),
        Some(SpaceInfo { total_space: 4_096_000, free_space: 1_024_000, used_space: 3_072_000 })
    );
    assert_eq!(space_from_statvfs(u64::MAX, 2, 0), None);
    assert_eq!(space_from_statvfs(10, 1, 2), None);
}

#[test]
fn unmounted_space() {
    assert_eq!(
        fallback_space_info(Some("1000".into()), Some("512".into())),
        Some(SpaceInfo { total_space: 512_000, free_space: 0, used_space: 0 })
    );
    assert_eq!(
        fallback_space_info(Some(" 1000\n".into()), Some("x".into())),
        Some(SpaceInfo { total_space: 0, free_space: 0, used_space: 0 })
    );
    assert_eq!(
        fallback_space_info(None, Some("512".into())),
        Some(SpaceInfo { total_space: 0, free_space: 0, used_space: 0 })
    );
    assert_eq!(fallback_space_info(Some(u64::MAX.to_string()), Some("2".into())), None);
}

#[test]
fn mounts_lines() {
    let line = "/dev/sda1 /boot vfat rw,relatime 0 0";
    assert_eq!(mount_point(line, "/dev/sda1"), Some("/boot".to_string()));
    assert_eq!(mount_point(line, "/dev/sda"), None);
    assert_eq!(mount_point("/dev//sda1/ /mnt ext4", "/dev/sda1"), Some("/mnt".to_string()));
    assert_eq!(mount_point("/dev/sda1", "/dev/sda1"), None);
}

#[test]
fn partition_numbers() {
    assert_eq!(partition_number("3"), 3);
    assert_eq!(partition_number("x"), 0);
    assert_eq!(partition_number(""), 0);
}
