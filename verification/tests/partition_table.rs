use dg_sysfs::classes::block::partition_table::{
    gpt_entry_uuid, locate_part_uuid, PartTableError, PartUuidLookup, HEAD_LEN,
};

fn mbr_disk(sig: u32) -> Vec<u8> {
    let mut b = vec![0u8; HEAD_LEN];
    b[0x1B8..0x1BC].copy_from_slice(&sig.to_le_bytes());
    b[510] = 0x55;
    b[511] = 0xAA;
    b
}

fn gpt_disk(lba: u64, count: u32, size: u32) -> Vec<u8> {
    let mut b = mbr_disk(0);
    b[0x1C2] = 0xEE;
    b[512..520].copy_from_slice(b"EFI PART");
    b[512 + 72..512 + 80].copy_from_slice(&lba.to_le_bytes());
    b[512 + 80..512 + 84].copy_from_slice(&count.to_le_bytes());
    b[512 + 84..512 + 88].copy_from_slice(&size.to_le_bytes());
    b
}

#[test]
fn mbr_identifier_from_signature() {
    let b = mbr_disk(0x11223344);
    let got = locate_part_uuid(&b, 2).unwrap();
    let want = uuid::Builder::from_random_bytes([
        0x11, 0x22, 0x33, 0x44, 0x11, 0x22, 0x33, 0x44, 0, 0, 0, 2, 0, 0, 0, 2,
    ])
    .into_uuid()
    .into_bytes();
    assert_eq!(got, PartUuidLookup::Found(want));
    if let PartUuidLookup::Found(u) = got {
        assert_eq!(u[6] >> 4, 4);
        assert_eq!(u[8] >> 6, 2);
        assert_eq!(u[0..4], [0x11, 0x22, 0x33, 0x44]);
        assert_eq!(u[6], 0x40 | (0x33 & 0x0f));
    }
}

#[test]
fn mbr_without_boot_signature() {
    let mut b = mbr_disk(1);
    b[511] = 0;
    assert_eq!(locate_part_uuid(&b, 1), Err(PartTableError::NotPartitioned));
}

#[test]
fn short_disks() {
    assert_eq!(locate_part_uuid(&[0u8; 100], 1), Err(PartTableError::TooShort));
    let b = mbr_disk(7);
    assert_eq!(locate_part_uuid(&b[..500], 1), Err(PartTableError::TooShort));
    let g = gpt_disk(2, 128, 128);
    assert_eq!(locate_part_uuid(&g[..600], 1), Err(PartTableError::TooShort));
}

#[test]
fn gpt_entry_offset() {
    let g = gpt_disk(2, 128, 128);
    assert_eq!(locate_part_uuid(&g, 1), Ok(PartUuidLookup::ReadGptEntry(2 * 512 + 16)));
    assert_eq!(locate_part_uuid(&g, 3), Ok(PartUuidLookup::ReadGptEntry(2 * 512 + 2 * 128 + 16)));
}

#[test]
fn gpt_bad_index() {
    let g = gpt_disk(2, 4, 128);
    assert_eq!(locate_part_uuid(&g, 0), Err(PartTableError::BadIndex));
    assert_eq!(locate_part_uuid(&g, 5), Err(PartTableError::BadIndex));
    assert!(locate_part_uuid(&g, 4).is_ok());
}

#[test]
fn gpt_offset_overflow() {
    let g = gpt_disk(u64::MAX / 256, 4, 128);
    assert_eq!(locate_part_uuid(&g, 1), Err(PartTableError::OffsetOverflow));
}

#[test]
fn protective_mbr_without_gpt_header_falls_back() {
    let mut g = gpt_disk(2, 4, 128);
    g[512] = b'X';
    assert!(matches!(locate_part_uuid(&g, 1), Ok(PartUuidLookup::Found(_))));
}

#[test]
fn gpt_guid_mixed_endian() {
    let raw = [
        0xa1, 0xa2, 0xa3, 0xa4, 0xb1, 0xb2, 0xc1, 0xc2, 0xd1, 0xd2, 0xd3, 0xd4, 0xd5, 0xd6, 0xd7,
        0xd8,
    ];
    let got = gpt_entry_uuid(raw);
    assert_eq!(
        got,
        [0xa4, 0xa3, 0xa2, 0xa1, 0xb2, 0xb1, 0xc2, 0xc1, 0xd1, 0xd2, 0xd3, 0xd4, 0xd5, 0xd6, 0xd7, 0xd8]
    );
    assert_eq!(gpt_entry_uuid(got), raw);
}

#[test]
fn lookup_ignores_bytes_past_head() {
    let mut g = gpt_disk(2, 4, 128);
    g.extend_from_slice(&[0xFFu8; 64]);
    assert_eq!(locate_part_uuid(&g, 2), locate_part_uuid(&g[..HEAD_LEN], 2));
}

#[test]
fn mbr_identifiers_differ_by_partition_number() {
    let b = mbr_disk(0xA1B2C3D4);
    let one = locate_part_uuid(&b, 1).unwrap();
    let two = locate_part_uuid(&b, 2).unwrap();
    assert_ne!(one, two);
    assert_eq!(one, locate_part_uuid(&b, 1).unwrap());
    if let PartUuidLookup::Found(u) = two {
        assert_eq!(u[0..4], [0xA1, 0xB2, 0xC3, 0xD4]);
        assert_eq!(u[12..16], [0, 0, 0, 2]);
    } else {
        panic!("an MBR disk gives the identifier itself");
    }
}
