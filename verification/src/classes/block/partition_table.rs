//! Finding a partition's unique identifier in the partition table of its
//! disk: the GPT entry's GUID, or, on an MBR disk, one derived from the
//! disk signature and the partition number.

use vstd::prelude::*;
use crate::classes::block::superblock::{UuidBytes, bytes_at, le_u32_at};

verus! {

/// How many bytes from the start of a disk the partition table lookup
/// reads: the first sector and the 92-byte GPT header that follows it.
pub const HEAD_LEN: usize = 604;

/// Where the lookup of a partition's identifier got to.
#[derive(Copy, Clone, Debug, PartialEq, Eq)]
pub enum PartUuidLookup {
    /// The identifier, derived from an MBR.
    Found(UuidBytes),
    /// The disk has a GPT: the partition's GUID is the 16 bytes at this
    /// offset of the disk, to be read and passed to [`gpt_entry_uuid`].
    ReadGptEntry(u64),
}

/// Why a partition's identifier could not be found.
#[derive(Copy, Clone, Debug, PartialEq, Eq)]
pub enum PartTableError {
    /// The disk ends before a region that the lookup has to read.
    TooShort,
    /// The partition number is 0 or past the GPT's last entry.
    BadIndex,
    /// The first sector has no MBR boot signature.
    NotPartitioned,
    /// The GPT entry lies beyond the offsets that a `u64` can hold.
    OffsetOverflow,
}

/// `uuid::Uuid::from_bytes_le`: the first three fields (4, 2 and 2 bytes)
/// reversed, the last 8 bytes as they are. This is the function's whole
/// body in the uuid crate.
#[verifier::external_body]
fn uuid_from_bytes_le(b: UuidBytes) -> (r: UuidBytes)
    ensures
        r@ == seq![b[3], b[2], b[1], b[0], b[5], b[4], b[7], b[6]] + b@.subrange(8, 16),
{
    uuid::Uuid::from_bytes_le(b).into_bytes()
}

/// `uuid::Builder::from_random_bytes(..).into_uuid()`: the bytes as they
/// are, but for the RFC 4122 variant bits set in byte 8 and version 4 set
/// in byte 6, which is what `with_variant` and `with_version` do in the
/// uuid crate.
#[verifier::external_body]
fn uuid_from_random_bytes(b: UuidBytes) -> (r: UuidBytes)
    ensures
        r@ == b@.update(8, (b[8] & 0x3f) | 0x80).update(6, (b[6] & 0x0f) | 0x40),
{
    uuid::Builder::from_random_bytes(b).into_uuid().into_bytes()
}

/// A version 4 UUID made from the bytes `s`.
pub open spec fn random_uuid(s: Seq<u8>) -> Seq<u8> {
    s.update(8, (s[8] & 0x3f) | 0x80).update(6, (s[6] & 0x0f) | 0x40)
}

/// A GUID stored in little-endian field order, in byte order.
pub open spec fn guid_le(b: Seq<u8>) -> Seq<u8> {
    seq![b[3], b[2], b[1], b[0], b[5], b[4], b[7], b[6]] + b.subrange(8, 16)
}

/// The little-endian 64-bit number at offset `off` of `b`.
pub open spec fn le_u64_at(b: Seq<u8>, off: int) -> u64 {
    (b[off] as int + b[off + 1] as int * 0x100 + b[off + 2] as int * 0x10000 + b[off + 3] as int
        * 0x1000000 + b[off + 4] as int * 0x100000000 + b[off + 5] as int * 0x10000000000
        + b[off + 6] as int * 0x1000000000000 + b[off + 7] as int * 0x100000000000000) as u64
}

/// The four bytes of `x`, most significant first.
pub open spec fn be_bytes(x: u32) -> Seq<u8> {
    seq![
        (x / 0x1000000) as u8,
        ((x / 0x10000) % 0x100) as u8,
        ((x / 0x100) % 0x100) as u8,
        (x % 0x100) as u8,
    ]
}

/// "EFI PART"
pub open spec fn efi_magic() -> Seq<u8> {
    seq![0x45u8, 0x46, 0x49, 0x20, 0x50, 0x41, 0x52, 0x54]
}

/// The offset on the disk of the GUID of GPT entry `index` (counted from
/// 1), from the GPT header at offset 512 of `head`.
pub open spec fn gpt_entry_offset(head: Seq<u8>, index: int) -> int {
    le_u64_at(head, 584) as int * 512 + (index - 1) * le_u32_at(head, 596) as int + 16
}

/// Whether `r` is what the first bytes `head` of a disk (all of them, or
/// the first [`HEAD_LEN`]) give for partition number `index`. A disk whose
/// partition type byte (at 0x1C2) is 0xEE and whose GPT header carries its
/// signature has a GPT: the number must name one of its entries. Any other
/// disk needs an MBR boot signature (0x55 0xAA at 510); the identifier is
/// then built from the disk signature at 0x1B8, twice, and the partition
/// number, twice, all big-endian, as a version 4 UUID.
pub open spec fn located(head: Seq<u8>, index: usize, r: Result<PartUuidLookup, PartTableError>) -> bool {
    if head.len() < 0x1C3 {
        r == Err::<PartUuidLookup, PartTableError>(PartTableError::TooShort)
    } else if head[0x1C2] == 0xEE && head.len() < 604 {
        r == Err::<PartUuidLookup, PartTableError>(PartTableError::TooShort)
    } else if head[0x1C2] == 0xEE && bytes_at(head, 512, efi_magic()) {
        if index == 0 || index > le_u32_at(head, 592) {
            r == Err::<PartUuidLookup, PartTableError>(PartTableError::BadIndex)
        } else if gpt_entry_offset(head, index as int) > u64::MAX {
            r == Err::<PartUuidLookup, PartTableError>(PartTableError::OffsetOverflow)
        } else {
            r == Ok::<PartUuidLookup, PartTableError>(
                PartUuidLookup::ReadGptEntry(gpt_entry_offset(head, index as int) as u64),
            )
        }
    } else if head.len() < 512 {
        r == Err::<PartUuidLookup, PartTableError>(PartTableError::TooShort)
    } else if head[510] != 0x55 || head[511] != 0xAA {
        r == Err::<PartUuidLookup, PartTableError>(PartTableError::NotPartitioned)
    } else {
        let sig = be_bytes(le_u32_at(head, 0x1B8));
        let num = be_bytes(index as u32);
        r matches Ok(PartUuidLookup::Found(u)) && u@ == random_uuid(sig + sig + num + num)
    }
}

/// The lookup looks no further than the first [`HEAD_LEN`] bytes of a
/// disk: given them alone, it decides as it does given the whole disk.
pub proof fn law_lookup_reads_only_head(
    head: Seq<u8>,
    index: usize,
    r: Result<PartUuidLookup, PartTableError>,
)
    requires
        head.len() >= HEAD_LEN,
    ensures
        located(head.take(HEAD_LEN as int), index, r) == located(head, index, r),
{
    let t = head.take(HEAD_LEN as int);
    assert(t.subrange(512, 520) =~= head.subrange(512, 520));
    assert(le_u64_at(t, 584) == le_u64_at(head, 584));
    assert(le_u32_at(t, 592) == le_u32_at(head, 592));
    assert(le_u32_at(t, 596) == le_u32_at(head, 596));
    assert(le_u32_at(t, 0x1B8) == le_u32_at(head, 0x1B8));
    assert(t[0x1C2] == head[0x1C2] && t[510] == head[510] && t[511] == head[511]);
}

/// The identifier derived from an MBR is always a version 4 UUID of the
/// RFC 4122 variant.
pub proof fn law_mbr_uuid_is_version_4(s: Seq<u8>)
    requires
        s.len() == 16,
    ensures
        random_uuid(s)[6] >> 4u8 == 4,
        random_uuid(s)[8] >> 6u8 == 2,
{
    let b6 = s[6];
    let b8 = s[8];
    assert(((b6 & 0x0f) | 0x40) >> 4u8 == 4) by (bit_vector);
    assert(((b8 & 0x3f) | 0x80) >> 6u8 == 2) by (bit_vector);
}

proof fn lemma_be_bytes_injective(a: u32, b: u32)
    requires
        be_bytes(a) == be_bytes(b),
    ensures
        a == b,
{
    assert(be_bytes(a)[0] == be_bytes(b)[0] && be_bytes(a)[1] == be_bytes(b)[1]);
    assert(be_bytes(a)[2] == be_bytes(b)[2] && be_bytes(a)[3] == be_bytes(b)[3]);
    // Each byte is below 0x100, so its `u8` value is the byte itself.
    assert(a / 0x1000000u32 == b / 0x1000000u32);
    assert((a / 0x10000u32) % 0x100u32 == (b / 0x10000u32) % 0x100u32);
    assert((a / 0x100u32) % 0x100u32 == (b / 0x100u32) % 0x100u32);
    assert(a % 0x100u32 == b % 0x100u32);
    assert(a == b) by (bit_vector)
        requires
            a / 0x1000000u32 == b / 0x1000000u32,
            (a / 0x10000u32) % 0x100u32 == (b / 0x10000u32) % 0x100u32,
            (a / 0x100u32) % 0x100u32 == (b / 0x100u32) % 0x100u32,
            a % 0x100u32 == b % 0x100u32,
    ;
}

/// The identifier derived from an MBR holds the disk signature, most
/// significant byte first, in its first four bytes, and the partition
/// number in its last four; so on one disk, two partition numbers that fit
/// in 32 bits give the same identifier only when they are the same.
pub proof fn law_mbr_uuid_layout(head: Seq<u8>, i: usize, j: usize, u: UuidBytes, v: UuidBytes)
    requires
        located(head, i, Ok(PartUuidLookup::Found(u))),
        located(head, j, Ok(PartUuidLookup::Found(v))),
        i <= u32::MAX,
        j <= u32::MAX,
    ensures
        u@.subrange(0, 4) == be_bytes(le_u32_at(head, 0x1B8)),
        u@.subrange(12, 16) == be_bytes(i as u32),
        (u@ == v@) <==> (i == j),
{
    let sig = be_bytes(le_u32_at(head, 0x1B8));
    let a = be_bytes(i as u32);
    let b = be_bytes(j as u32);
    assert(u@ == random_uuid(sig + sig + a + a));
    assert(v@ == random_uuid(sig + sig + b + b));
    assert(u@.subrange(0, 4) =~= sig);
    assert(u@.subrange(12, 16) =~= a);
    assert(v@.subrange(12, 16) =~= b);
    if u@ == v@ {
        assert(a == b);
        lemma_be_bytes_injective(i as u32, j as u32);
    }
}

/// Reading a GUID in little-endian field order twice gives back the bytes
/// it was read from.
pub proof fn law_guid_le_involution(b: Seq<u8>)
    requires
        b.len() == 16,
    ensures
        guid_le(guid_le(b)) == b,
{
    assert(guid_le(guid_le(b)) =~= b);
}

fn le_u32(b: &[u8], off: usize) -> (r: u32)
    requires
        off + 4 <= b@.len(),
    ensures
        r == le_u32_at(b@, off as int),
{
    (b[off] as u32) + (b[off + 1] as u32) * 0x100 + (b[off + 2] as u32) * 0x10000 + (b[off + 3]
        as u32) * 0x1000000
}

fn le_u64(b: &[u8], off: usize) -> (r: u64)
    requires
        off + 8 <= b@.len(),
    ensures
        r == le_u64_at(b@, off as int),
{
    (b[off] as u64) + (b[off + 1] as u64) * 0x100 + (b[off + 2] as u64) * 0x10000 + (b[off + 3]
        as u64) * 0x1000000 + (b[off + 4] as u64) * 0x100000000 + (b[off + 5] as u64)
        * 0x10000000000 + (b[off + 6] as u64) * 0x1000000000000 + (b[off + 7] as u64)
        * 0x100000000000000
}

/// The GUID of a GPT entry from the 16 bytes stored on disk.
pub fn gpt_entry_uuid(entry: UuidBytes) -> (r: UuidBytes)
    ensures
        r@ == guid_le(entry@),
{
    uuid_from_bytes_le(entry)
}

/// Looks up the identifier of partition `index` (counted from 1) in the
/// first bytes `head` of its disk (all of them, or the first
/// [`HEAD_LEN`]).
pub fn locate_part_uuid(head: &[u8], index: usize) -> (r: Result<PartUuidLookup, PartTableError>)
    ensures
        located(head@, index, r),
{
    if head.len() < 0x1C3 {
        return Err(PartTableError::TooShort);
    }
    let part_type = head[0x1C2];
    if part_type == 0xEE {
        if head.len() < 604 {
            return Err(PartTableError::TooShort);
        }
        let efi: [u8; 8] = [0x45, 0x46, 0x49, 0x20, 0x50, 0x41, 0x52, 0x54];
        let mut is_gpt = true;
        let mut i: usize = 0;
        while i < 8
            invariant
                head@.len() >= 604,
                i <= 8,
                is_gpt == forall|j: int| 0 <= j < i ==> head@[512 + j] == efi@[j],
            decreases 8 - i,
        {
            if head[512 + i] != efi[i] {
                is_gpt = false;
            }
            i = i + 1;
        }
        assert(efi@ =~= efi_magic());
        assert(is_gpt == bytes_at(head@, 512, efi_magic())) by {
            if is_gpt {
                assert(head@.subrange(512, 520) =~= efi_magic());
            } else {
                let j = choose|j: int| 0 <= j < 8 && head@[512 + j] != efi@[j];
                assert(head@.subrange(512, 520)[j] != efi_magic()[j]);
            }
        }
        if is_gpt {
            let lba = le_u64(head, 512 + 72);
            let entry_count = le_u32(head, 512 + 80);
            let entry_size = le_u32(head, 512 + 84);
            if index == 0 || index as u64 > entry_count as u64 {
                return Err(PartTableError::BadIndex);
            }
            let step: u128 = (index as u128) - 1;
            assert(step * (entry_size as u128) <= 0xFFFF_FFFFu128 * 0xFFFF_FFFFu128)
                by (nonlinear_arith)
                requires
                    step <= 0xFFFF_FFFFu128,
                    entry_size <= 0xFFFF_FFFFu32,
            ;
            let offset: u128 = (lba as u128) * 512 + step * (entry_size as u128) + 16;
            if offset > u64::MAX as u128 {
                return Err(PartTableError::OffsetOverflow);
            }
            return Ok(PartUuidLookup::ReadGptEntry(offset as u64));
        }
    }
    if head.len() < 512 {
        return Err(PartTableError::TooShort);
    }
    if head[510] != 0x55 || head[511] != 0xAA {
        return Err(PartTableError::NotPartitioned);
    }
    let sig = le_u32(head, 0x1B8);
    let num = index as u32;
    let s0 = (sig / 0x1000000) as u8;
    let s1 = ((sig / 0x10000) % 0x100) as u8;
    let s2 = ((sig / 0x100) % 0x100) as u8;
    let s3 = (sig % 0x100) as u8;
    let n0 = (num / 0x1000000) as u8;
    let n1 = ((num / 0x10000) % 0x100) as u8;
    let n2 = ((num / 0x100) % 0x100) as u8;
    let n3 = (num % 0x100) as u8;
    let bytes: UuidBytes = [s0, s1, s2, s3, s0, s1, s2, s3, n0, n1, n2, n3, n0, n1, n2, n3];
    let ghost sb = be_bytes(sig);
    let ghost nb = be_bytes(num);
    assert(bytes@ =~= sb + sb + nb + nb);
    let id = uuid_from_random_bytes(bytes);
    Ok(PartUuidLookup::Found(id))
}

} // verus!
