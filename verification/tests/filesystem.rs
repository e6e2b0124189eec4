use dg_sysfs::classes::block::disk::{FileSystem, ProbeError};
use dg_sysfs::classes::block::superblock::PROBE_LEN;

fn image(len: usize) -> Vec<u8> {
    vec![0u8; len]
}

fn put(b: &mut [u8], off: usize, bytes: &[u8]) {
    b[off..off + bytes.len()].copy_from_slice(bytes);
}

fn seq16(start: u8) -> [u8; 16] {
    let mut a = [0u8; 16];
    for (i, x) in a.iter_mut().enumerate() {
        *x = start + i as u8;
    }
    a
}

#[test]
fn too_short_device() {
    assert_eq!(FileSystem::detect(&image(100)), Err(ProbeError::TooShort));
    assert_eq!(FileSystem::detect(&image(2047)), Err(ProbeError::TooShort));
}

#[test]
fn unknown_small_device_needs_btrfs_region() {
    assert_eq!(FileSystem::detect(&image(4096)), Err(ProbeError::TooShort));
    assert_eq!(FileSystem::detect(&image(65544)), Ok(None));
}

#[test]
fn xfs_with_uuid() {
    let mut b = image(2048);
    put(&mut b, 0, b"XFSB");
    put(&mut b, 32, &seq16(1));
    assert_eq!(FileSystem::detect(&b), Ok(Some(FileSystem::XFS(seq16(1)))));
}

#[test]
fn jfs_and_f2fs() {
    let mut b = image(2048);
    put(&mut b, 0, b"JFS1");
    put(&mut b, 0xC0, &seq16(10));
    assert_eq!(FileSystem::detect(&b), Ok(Some(FileSystem::JFS(seq16(10)))));
    let mut b = image(2048);
    put(&mut b, 0, &0xF2F52010u32.to_le_bytes());
    put(&mut b, 8, &seq16(20));
    assert_eq!(FileSystem::detect(&b), Ok(Some(FileSystem::F2FS(seq16(20)))));
}

#[test]
fn ntfs_serial_number() {
    let mut b = image(2048);
    put(&mut b, 3, b"NTFS    ");
    put(&mut b, 0x48, &[1, 2, 3, 4, 5, 6, 7, 8]);
    let mut id = [0u8; 16];
    id[..8].copy_from_slice(&[1, 2, 3, 4, 5, 6, 7, 8]);
    assert_eq!(FileSystem::detect(&b), Ok(Some(FileSystem::NTFS(id))));
}

#[test]
fn fat_variants() {
    let mut b = image(2048);
    put(&mut b, 3, b"EXFAT   ");
    put(&mut b, 0x43, &[9, 8, 7, 6]);
    let mut id = [0u8; 16];
    id[..4].copy_from_slice(&[9, 8, 7, 6]);
    assert_eq!(FileSystem::detect(&b), Ok(Some(FileSystem::ExFAT(id))));

    let mut b = image(2048);
    put(&mut b, 82, b"FAT32   ");
    put(&mut b, 0x67, &[1, 1, 2, 2]);
    let mut id = [0u8; 16];
    id[..4].copy_from_slice(&[1, 1, 2, 2]);
    assert_eq!(FileSystem::detect(&b), Ok(Some(FileSystem::FAT32(id))));

    for (magic, expect_12) in [(b"FAT12   ", true), (b"FAT16   ", false)] {
        let mut b = image(2048);
        put(&mut b, 54, magic);
        put(&mut b, 0x43, &[4, 3, 2, 1]);
        let mut id = [0u8; 16];
        id[..4].copy_from_slice(&[4, 3, 2, 1]);
        let want = if expect_12 { FileSystem::FAT12(id) } else { FileSystem::FAT16(id) };
        assert_eq!(FileSystem::detect(&b), Ok(Some(want)));
    }
}

#[test]
fn ext_generations() {
    let cases = [(0u32, 0u32, 2), (4, 0, 3), (4, 0x40, 4), (0, 0x40, 2)];
    for (compat, incompat, gen) in cases {
        let mut b = image(2048);
        b[1080] = 0x53;
        b[1081] = 0xEF;
        put(&mut b, 1116, &compat.to_le_bytes());
        put(&mut b, 1120, &incompat.to_le_bytes());
        put(&mut b, 1024 + 0x68, &seq16(40));
        let want = match gen {
            2 => FileSystem::Ext2(seq16(40)),
            3 => FileSystem::Ext3(seq16(40)),
            _ => FileSystem::Ext4(seq16(40)),
        };
        assert_eq!(FileSystem::detect(&b), Ok(Some(want)));
    }
}

#[test]
fn reiserfs() {
    let mut b = image(2048);
    put(&mut b, 256, b"ReIsErFs");
    put(&mut b, 0x34, &seq16(3));
    assert_eq!(FileSystem::detect(&b), Ok(Some(FileSystem::ReiserFS(seq16(3)))));
}

#[test]
fn btrfs_with_and_without_uuid() {
    let mut b = image(PROBE_LEN);
    put(&mut b, 65536, b"BTRFS");
    put(&mut b, 65536 + 0x20, &seq16(50));
    assert_eq!(FileSystem::detect(&b), Ok(Some(FileSystem::Btrfs(seq16(50)))));
    let short = &b[..65544];
    assert_eq!(FileSystem::detect(short), Ok(Some(FileSystem::Btrfs([0; 16]))));
}

#[test]
fn iso9660() {
    let mut b = image(PROBE_LEN);
    b[32768] = 1;
    put(&mut b, 32769, b"CD001");
    assert_eq!(FileSystem::detect(&b), Ok(Some(FileSystem::ISO9660)));
    b[32768] = 2;
    assert_eq!(FileSystem::detect(&b), Ok(None));
}

#[test]
fn first_match_wins() {
    let mut b = image(PROBE_LEN);
    put(&mut b, 0, b"XFSB");
    put(&mut b, 65536, b"BTRFS");
    assert!(matches!(FileSystem::detect(&b), Ok(Some(FileSystem::XFS(_)))));
}

#[test]
fn probe_ignores_bytes_past_prefix() {
    let mut b = image(PROBE_LEN + 1000);
    put(&mut b, 65536, b"BTRFS");
    put(&mut b, PROBE_LEN + 10, b"junk");
    assert_eq!(FileSystem::detect(&b), FileSystem::detect(&b[..PROBE_LEN]));
}
