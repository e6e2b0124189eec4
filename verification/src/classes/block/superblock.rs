//! Recognising a file system from the first bytes of a block device.

use vstd::prelude::*;

verus! {

/// A UUID, as its sixteen bytes in order.
pub type UuidBytes = [u8; 16];

/// How many bytes from the start of a device the file system probe looks
/// at: up to the end of the Btrfs UUID, 16 bytes at 0x10020.
pub const PROBE_LEN: usize = 65584;

/// A file system found on a device, with the identifier that its superblock
/// gives (all zero where it gives none).
#[derive(Copy, Clone, Debug, PartialEq, Eq)]
pub enum FileSystem {
    Btrfs(UuidBytes),
    ExFAT(UuidBytes),
    Ext2(UuidBytes),
    Ext3(UuidBytes),
    Ext4(UuidBytes),
    F2FS(UuidBytes),
    FAT12(UuidBytes),
    FAT16(UuidBytes),
    FAT32(UuidBytes),
    ISO9660,
    JFS(UuidBytes),
    NTFS(UuidBytes),
    ReiserFS(UuidBytes),
    Unknown,
    XFS(UuidBytes),
}

/// Why a device could not be probed.
#[derive(Copy, Clone, Debug, PartialEq, Eq)]
pub enum ProbeError {
    /// The device ends before a region that the probe has to read.
    TooShort,
}

/// `b` holds the bytes `m` at offset `off`.
pub open spec fn bytes_at(b: Seq<u8>, off: int, m: Seq<u8>) -> bool {
    0 <= off && off + m.len() <= b.len() && b.subrange(off, off + m.len()) == m
}

/// The little-endian 32-bit number at offset `off` of `b`.
pub open spec fn le_u32_at(b: Seq<u8>, off: int) -> u32 {
    (b[off] as int + b[off + 1] as int * 0x100 + b[off + 2] as int * 0x10000 + b[off + 3] as int
        * 0x1000000) as u32
}

/// The sixteen bytes at offset `off` of `b`.
pub open spec fn uuid_at(b: Seq<u8>, off: int) -> Seq<u8> {
    b.subrange(off, off + 16)
}

/// `n` bytes at offset `off` of `b`, then zeros up to sixteen bytes.
pub open spec fn short_id_at(b: Seq<u8>, off: int, n: int) -> Seq<u8> {
    b.subrange(off, off + n) + Seq::new((16 - n) as nat, |i: int| 0u8)
}

/// Sixteen zero bytes: the nil UUID.
pub open spec fn nil_uuid() -> Seq<u8> {
    Seq::new(16, |i: int| 0u8)
}

/// "XFSB"
pub open spec fn xfs_magic() -> Seq<u8> {
    seq![0x58u8, 0x46, 0x53, 0x42]
}

/// "JFS1"
pub open spec fn jfs_magic() -> Seq<u8> {
    seq![0x4Au8, 0x46, 0x53, 0x31]
}

/// "NTFS"
pub open spec fn ntfs_magic() -> Seq<u8> {
    seq![0x4Eu8, 0x54, 0x46, 0x53]
}

/// "EXFAT"
pub open spec fn exfat_magic() -> Seq<u8> {
    seq![0x45u8, 0x58, 0x46, 0x41, 0x54]
}

/// "FAT32"
pub open spec fn fat32_magic() -> Seq<u8> {
    seq![0x46u8, 0x41, 0x54, 0x33, 0x32]
}

/// "FAT12"
pub open spec fn fat12_magic() -> Seq<u8> {
    seq![0x46u8, 0x41, 0x54, 0x31, 0x32]
}

/// "FAT16"
pub open spec fn fat16_magic() -> Seq<u8> {
    seq![0x46u8, 0x41, 0x54, 0x31, 0x36]
}

/// "ReIsErFs"
pub open spec fn reiserfs_magic() -> Seq<u8> {
    seq![0x52u8, 0x65, 0x49, 0x73, 0x45, 0x72, 0x46, 0x73]
}

/// "BTRFS"
pub open spec fn btrfs_magic() -> Seq<u8> {
    seq![0x42u8, 0x54, 0x52, 0x46, 0x53]
}

/// "CD001"
pub open spec fn iso_magic() -> Seq<u8> {
    seq![0x43u8, 0x44, 0x30, 0x30, 0x31]
}

/// The F2FS superblock magic number.
pub const F2FS_MAGIC: u32 = 0xF2F52010;

/// Whether the probe result `r` is what the first bytes `b` of a device
/// (all of them, or the first [`PROBE_LEN`]) call for. The superblocks are
/// tried in this order, and the first that matches decides: XFS, JFS, F2FS,
/// NTFS, exFAT, FAT32, FAT12, FAT16, ext2/3/4, ReiserFS, Btrfs, ISO 9660.
/// The first 2048 bytes must exist, and so must the Btrfs magic at 0x10000
/// once the probe gets that far.
pub open spec fn probed(b: Seq<u8>, r: Result<Option<FileSystem>, ProbeError>) -> bool {
    if b.len() < 2048 {
        r == Err::<Option<FileSystem>, ProbeError>(ProbeError::TooShort)
    } else if bytes_at(b, 0, xfs_magic()) {
        r matches Ok(Some(FileSystem::XFS(u))) && u@ == uuid_at(b, 32)
    } else if bytes_at(b, 0, jfs_magic()) {
        r matches Ok(Some(FileSystem::JFS(u))) && u@ == uuid_at(b, 0xC0)
    } else if le_u32_at(b, 0) == F2FS_MAGIC {
        r matches Ok(Some(FileSystem::F2FS(u))) && u@ == uuid_at(b, 0x08)
    } else if bytes_at(b, 3, ntfs_magic()) {
        r matches Ok(Some(FileSystem::NTFS(u))) && u@ == short_id_at(b, 0x48, 8)
    } else if bytes_at(b, 3, exfat_magic()) {
        r matches Ok(Some(FileSystem::ExFAT(u))) && u@ == short_id_at(b, 0x43, 4)
    } else if bytes_at(b, 82, fat32_magic()) {
        r matches Ok(Some(FileSystem::FAT32(u))) && u@ == short_id_at(b, 0x67, 4)
    } else if bytes_at(b, 54, fat12_magic()) {
        r matches Ok(Some(FileSystem::FAT12(u))) && u@ == short_id_at(b, 0x43, 4)
    } else if bytes_at(b, 54, fat16_magic()) {
        r matches Ok(Some(FileSystem::FAT16(u))) && u@ == short_id_at(b, 0x43, 4)
    } else if b[1080] == 0x53 && b[1081] == 0xEF {
        let has_journal = (le_u32_at(b, 1116) & 0x0004) != 0;
        let has_extents = (le_u32_at(b, 1120) & 0x40) != 0;
        if !has_journal {
            r matches Ok(Some(FileSystem::Ext2(u))) && u@ == uuid_at(b, 1128)
        } else if !has_extents {
            r matches Ok(Some(FileSystem::Ext3(u))) && u@ == uuid_at(b, 1128)
        } else {
            r matches Ok(Some(FileSystem::Ext4(u))) && u@ == uuid_at(b, 1128)
        }
    } else if bytes_at(b, 256, reiserfs_magic()) {
        r matches Ok(Some(FileSystem::ReiserFS(u))) && u@ == uuid_at(b, 0x34)
    } else if b.len() < 65536 + 8 {
        r == Err::<Option<FileSystem>, ProbeError>(ProbeError::TooShort)
    } else if bytes_at(b, 65536, btrfs_magic()) {
        r matches Ok(Some(FileSystem::Btrfs(u))) && u@ == if b.len() >= 65536 + 0x20 + 16 {
            uuid_at(b, 65568)
        } else {
            nil_uuid()
        }
    } else if b[32768] == 1 && bytes_at(b, 32769, iso_magic()) {
        r == Ok::<Option<FileSystem>, ProbeError>(Some(FileSystem::ISO9660))
    } else {
        r == Ok::<Option<FileSystem>, ProbeError>(None)
    }
}

proof fn lemma_prefix_agrees(b: Seq<u8>, t: Seq<u8>, off: int, m: Seq<u8>)
    requires
        t == b.take(PROBE_LEN as int),
        b.len() >= PROBE_LEN,
        0 <= off,
        off + m.len() <= PROBE_LEN,
    ensures
        bytes_at(t, off, m) == bytes_at(b, off, m),
{
    assert(t.subrange(off, off + m.len()) =~= b.subrange(off, off + m.len()));
}

/// The probe looks no further than the first [`PROBE_LEN`] bytes of a
/// device: given them alone, it decides as it does given the whole device.
pub proof fn law_probe_reads_only_prefix(b: Seq<u8>, r: Result<Option<FileSystem>, ProbeError>)
    requires
        b.len() >= PROBE_LEN,
    ensures
        probed(b.take(PROBE_LEN as int), r) == probed(b, r),
{
    let t = b.take(PROBE_LEN as int);
    lemma_prefix_agrees(b, t, 0, xfs_magic());
    lemma_prefix_agrees(b, t, 0, jfs_magic());
    lemma_prefix_agrees(b, t, 3, ntfs_magic());
    lemma_prefix_agrees(b, t, 3, exfat_magic());
    lemma_prefix_agrees(b, t, 82, fat32_magic());
    lemma_prefix_agrees(b, t, 54, fat12_magic());
    lemma_prefix_agrees(b, t, 54, fat16_magic());
    lemma_prefix_agrees(b, t, 256, reiserfs_magic());
    lemma_prefix_agrees(b, t, 65536, btrfs_magic());
    lemma_prefix_agrees(b, t, 32769, iso_magic());
    assert(le_u32_at(t, 0) == le_u32_at(b, 0));
    assert(le_u32_at(t, 1116) == le_u32_at(b, 1116));
    assert(le_u32_at(t, 1120) == le_u32_at(b, 1120));
    assert(uuid_at(t, 32) =~= uuid_at(b, 32));
    assert(uuid_at(t, 0xC0) =~= uuid_at(b, 0xC0));
    assert(uuid_at(t, 0x08) =~= uuid_at(b, 0x08));
    assert(uuid_at(t, 1128) =~= uuid_at(b, 1128));
    assert(uuid_at(t, 0x34) =~= uuid_at(b, 0x34));
    assert(uuid_at(t, 65568) =~= uuid_at(b, 65568));
    assert(short_id_at(t, 0x48, 8) =~= short_id_at(b, 0x48, 8));
    assert(short_id_at(t, 0x43, 4) =~= short_id_at(b, 0x43, 4));
    assert(short_id_at(t, 0x67, 4) =~= short_id_at(b, 0x67, 4));
    assert(t[1080] == b[1080] && t[1081] == b[1081] && t[32768] == b[32768]);
}

/// On an ext superblock, the generation follows two feature bits alone:
/// the journal bit (0x4) of the compatible features and the extents bit
/// (0x40) of the incompatible ones. No journal is ext2, a journal without
/// extents ext3, both ext4; setting or clearing any other feature bit
/// never changes which of them is found.
pub proof fn law_ext_generation_follows_journal_and_extents(
    b: Seq<u8>,
    r: Result<Option<FileSystem>, ProbeError>,
)
    requires
        probed(b, r),
        r matches Ok(Some(fs)) && (fs is Ext2 || fs is Ext3 || fs is Ext4),
    ensures
        ({
            let journal = le_u32_at(b, 1116) & 0x4u32 != 0;
            let extents = le_u32_at(b, 1120) & 0x40u32 != 0;
            let fs = r->Ok_0->Some_0;
            &&& fs is Ext2 <==> !journal
            &&& fs is Ext3 <==> journal && !extents
            &&& fs is Ext4 <==> journal && extents
            &&& fs matches FileSystem::Ext2(u) ==> u@ == uuid_at(b, 1128)
            &&& fs matches FileSystem::Ext3(u) ==> u@ == uuid_at(b, 1128)
            &&& fs matches FileSystem::Ext4(u) ==> u@ == uuid_at(b, 1128)
        }),
{
}

/// Whether `b` holds `m` at offset `off`.
fn bytes_match(b: &[u8], off: usize, m: &[u8]) -> (r: bool)
    requires
        off + m@.len() <= b@.len(),
    ensures
        r == bytes_at(b@, off as int, m@),
{
    let n = m.len();
    let mut i: usize = 0;
    while i < n
        invariant
            n == m@.len(),
            off + n <= b@.len(),
            b@.len() == b.len(),
            i <= n,
            forall|j: int| 0 <= j < i ==> b@[off + j] == m@[j],
        decreases n - i,
    {
        if b[off + i] != m[i] {
            assert(b@.subrange(off as int, off + n)[i as int] != m@[i as int]);
            return false;
        }
        i = i + 1;
    }
    assert(b@.subrange(off as int, off + n) =~= m@);
    true
}

/// The little-endian 32-bit number at offset `off` of `b`.
fn le_u32(b: &[u8], off: usize) -> (r: u32)
    requires
        off + 4 <= b@.len(),
    ensures
        r == le_u32_at(b@, off as int),
{
    (b[off] as u32) + (b[off + 1] as u32) * 0x100 + (b[off + 2] as u32) * 0x10000 + (b[off + 3]
        as u32) * 0x1000000
}

/// The sixteen bytes at offset `off` of `b`.
fn uuid_bytes(b: &[u8], off: usize) -> (r: UuidBytes)
    requires
        off + 16 <= b@.len(),
    ensures
        r@ == uuid_at(b@, off as int),
{
    let r = [
        b[off],
        b[off + 1],
        b[off + 2],
        b[off + 3],
        b[off + 4],
        b[off + 5],
        b[off + 6],
        b[off + 7],
        b[off + 8],
        b[off + 9],
        b[off + 10],
        b[off + 11],
        b[off + 12],
        b[off + 13],
        b[off + 14],
        b[off + 15],
    ];
    assert(r@ =~= uuid_at(b@, off as int));
    r
}

/// The four bytes at offset `off` of `b`, then twelve zeros.
fn short_id4(b: &[u8], off: usize) -> (r: UuidBytes)
    requires
        off + 4 <= b@.len(),
    ensures
        r@ == short_id_at(b@, off as int, 4),
{
    let r = [b[off], b[off + 1], b[off + 2], b[off + 3], 0, 0, 0, 0, 0, 0, 0, 0, 0, 0, 0, 0];
    assert(r@ =~= short_id_at(b@, off as int, 4));
    r
}

/// The eight bytes at offset `off` of `b`, then eight zeros.
fn short_id8(b: &[u8], off: usize) -> (r: UuidBytes)
    requires
        off + 8 <= b@.len(),
    ensures
        r@ == short_id_at(b@, off as int, 8),
{
    let r = [
        b[off],
        b[off + 1],
        b[off + 2],
        b[off + 3],
        b[off + 4],
        b[off + 5],
        b[off + 6],
        b[off + 7],
        0,
        0,
        0,
        0,
        0,
        0,
        0,
        0,
    ];
    assert(r@ =~= short_id_at(b@, off as int, 8));
    r
}

impl FileSystem {
    /// Recognises the file system whose superblock stands in `image`, the
    /// first bytes of a device: all of them, or its first [`PROBE_LEN`].
    pub fn detect(image: &[u8]) -> (r: Result<Option<FileSystem>, ProbeError>)
        ensures
            probed(image@, r),
    {
        let b = image;
        if b.len() < 2048 {
            return Err(ProbeError::TooShort);
        }
        let xfs: [u8; 4] = [0x58, 0x46, 0x53, 0x42];
        assert(xfs@ =~= xfs_magic());
        if bytes_match(b, 0, &xfs) {
            return Ok(Some(FileSystem::XFS(uuid_bytes(b, 32))));
        }
        let jfs: [u8; 4] = [0x4A, 0x46, 0x53, 0x31];
        assert(jfs@ =~= jfs_magic());
        if bytes_match(b, 0, &jfs) {
            return Ok(Some(FileSystem::JFS(uuid_bytes(b, 0xC0))));
        }
        if le_u32(b, 0) == F2FS_MAGIC {
            return Ok(Some(FileSystem::F2FS(uuid_bytes(b, 0x08))));
        }
        let ntfs: [u8; 4] = [0x4E, 0x54, 0x46, 0x53];
        assert(ntfs@ =~= ntfs_magic());
        if bytes_match(b, 3, &ntfs) {
            return Ok(Some(FileSystem::NTFS(short_id8(b, 0x48))));
        }
        let exfat: [u8; 5] = [0x45, 0x58, 0x46, 0x41, 0x54];
        assert(exfat@ =~= exfat_magic());
        if bytes_match(b, 3, &exfat) {
            return Ok(Some(FileSystem::ExFAT(short_id4(b, 0x43))));
        }
        let fat32: [u8; 5] = [0x46, 0x41, 0x54, 0x33, 0x32];
        assert(fat32@ =~= fat32_magic());
        if bytes_match(b, 82, &fat32) {
            return Ok(Some(FileSystem::FAT32(short_id4(b, 0x67))));
        }
        let fat12: [u8; 5] = [0x46, 0x41, 0x54, 0x31, 0x32];
        assert(fat12@ =~= fat12_magic());
        let fat16: [u8; 5] = [0x46, 0x41, 0x54, 0x31, 0x36];
        assert(fat16@ =~= fat16_magic());
        if bytes_match(b, 54, &fat12) {
            return Ok(Some(FileSystem::FAT12(short_id4(b, 0x43))));
        } else if bytes_match(b, 54, &fat16) {
            return Ok(Some(FileSystem::FAT16(short_id4(b, 0x43))));
        }
        if b[1080] == 0x53 && b[1081] == 0xEF {
            let feature_compat = le_u32(b, 1116);
            let feature_incompat = le_u32(b, 1120);
            let has_journal = (feature_compat & 0x0004) != 0;
            let has_extents = (feature_incompat & 0x40) != 0;
            let uuid = uuid_bytes(b, 1024 + 0x68);
            if !has_journal {
                return Ok(Some(FileSystem::Ext2(uuid)));
            } else if !has_extents {
                return Ok(Some(FileSystem::Ext3(uuid)));
            } else {
                return Ok(Some(FileSystem::Ext4(uuid)));
            }
        }
        let reiser: [u8; 8] = [0x52, 0x65, 0x49, 0x73, 0x45, 0x72, 0x46, 0x73];
        assert(reiser@ =~= reiserfs_magic());
        if bytes_match(b, 256, &reiser) {
            return Ok(Some(FileSystem::ReiserFS(uuid_bytes(b, 0x34))));
        }
        if b.len() < 65536 + 8 {
            return Err(ProbeError::TooShort);
        }
        let btrfs: [u8; 5] = [0x42, 0x54, 0x52, 0x46, 0x53];
        assert(btrfs@ =~= btrfs_magic());
        if bytes_match(b, 65536, &btrfs) {
            if b.len() >= 65536 + 0x20 + 16 {
                return Ok(Some(FileSystem::Btrfs(uuid_bytes(b, 65536 + 0x20))));
            }
            let nil: UuidBytes = [0; 16];
            assert(nil@ =~= nil_uuid());
            return Ok(Some(FileSystem::Btrfs(nil)));
        }
        let iso: [u8; 5] = [0x43, 0x44, 0x30, 0x30, 0x31];
        assert(iso@ =~= iso_magic());
        if b[32768] == 1 && bytes_match(b, 32769, &iso) {
            return Ok(Some(FileSystem::ISO9660));
        }
        Ok(None)
    }
}

} // verus!
