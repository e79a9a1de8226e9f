//! Decryption of the offsets of images and directories in a WZ file, and of
//! the directory entry counts and entry fields of the 64-bit PKG2 revisions.

use vstd::prelude::*;
use crate::bits::{lemma_shr_is_div_u32, rotl32, rotl64, rotr64, rotate_left_u32, rotate_left_u64, rotate_right_u64};
use crate::header::{DirectoryError, WzHeader};
use crate::pkg2_decryptor::{mix_kmst1199, mix_kmst1205, spec_mix_kmst1199, spec_mix_kmst1205};

verus! {

pub const WZ_OFFSET: u32 = 0x581C3F6D;

/// The offset scheme of a WZ format revision.
#[derive(Debug, Clone, Copy, PartialEq, Eq, Structural)]
pub enum WzOffsetVersion {
    Pkg1,
    Pkg2V1,
    Pkg2V2,
    Pkg2V3,
    Pkg2_64V1,
    Pkg2_64V2,
}

impl Default for WzOffsetVersion {
    fn default() -> (r: Self)
        ensures
            r == WzOffsetVersion::Pkg1,
    {
        WzOffsetVersion::Pkg1
    }
}

/// The offset calculation of each offset scheme.
#[derive(Debug, Clone, Copy, PartialEq, Eq, Structural)]
pub enum OffsetCalculator {
    ReadWzOffset,
    ReadWzOffsetPkg2,
    ReadWzOffsetPkg2V2,
    ReadWzOffsetPkg2V3,
    ReadWzOffsetPkg2_64V1,
    ReadWzOffsetPkg2_64V2,
}

/// The entry count decryption of the 64-bit offset schemes.
#[derive(Debug, Clone, Copy, PartialEq, Eq, Structural)]
pub enum EntryCountCalculator {
    DecryptPkg2EntryCount64V1,
    DecryptPkg2EntryCount64V2,
}

/// Whether an offset scheme has an entry count decryption.
pub open spec fn has_entry_count_calculator(v: WzOffsetVersion) -> bool {
    v == WzOffsetVersion::Pkg2_64V1 || v == WzOffsetVersion::Pkg2_64V2
}

pub open spec fn spec_calculator(v: WzOffsetVersion) -> OffsetCalculator {
    match v {
        WzOffsetVersion::Pkg1 => OffsetCalculator::ReadWzOffset,
        WzOffsetVersion::Pkg2V1 => OffsetCalculator::ReadWzOffsetPkg2,
        WzOffsetVersion::Pkg2V2 => OffsetCalculator::ReadWzOffsetPkg2V2,
        WzOffsetVersion::Pkg2V3 => OffsetCalculator::ReadWzOffsetPkg2V3,
        WzOffsetVersion::Pkg2_64V1 => OffsetCalculator::ReadWzOffsetPkg2_64V1,
        WzOffsetVersion::Pkg2_64V2 => OffsetCalculator::ReadWzOffsetPkg2_64V2,
    }
}

impl WzOffsetVersion {
    /// The offset calculation of this scheme.
    pub fn get_calculator(&self) -> (r: OffsetCalculator)
        ensures
            r == spec_calculator(*self),
    {
        match self {
            WzOffsetVersion::Pkg1 => OffsetCalculator::ReadWzOffset,
            WzOffsetVersion::Pkg2V1 => OffsetCalculator::ReadWzOffsetPkg2,
            WzOffsetVersion::Pkg2V2 => OffsetCalculator::ReadWzOffsetPkg2V2,
            WzOffsetVersion::Pkg2V3 => OffsetCalculator::ReadWzOffsetPkg2V3,
            WzOffsetVersion::Pkg2_64V1 => OffsetCalculator::ReadWzOffsetPkg2_64V1,
            WzOffsetVersion::Pkg2_64V2 => OffsetCalculator::ReadWzOffsetPkg2_64V2,
        }
    }

    /// The entry count decryption of a 64-bit scheme; the other schemes
    /// have none.
    pub fn get_entry_count_calculator(&self) -> (r: EntryCountCalculator)
        requires
            has_entry_count_calculator(*self),
        ensures
            *self == WzOffsetVersion::Pkg2_64V1 ==> r == EntryCountCalculator::DecryptPkg2EntryCount64V1,
            *self == WzOffsetVersion::Pkg2_64V2 ==> r == EntryCountCalculator::DecryptPkg2EntryCount64V2,
    {
        match self {
            WzOffsetVersion::Pkg2_64V1 => EntryCountCalculator::DecryptPkg2EntryCount64V1,
            _ => EntryCountCalculator::DecryptPkg2EntryCount64V2,
        }
    }
}

/// Where an encrypted offset is stored and the hash it is decrypted with.
#[derive(Debug, Clone, Copy)]
pub struct WzOffsetMeta {
    pub hash: u64,
    pub encrypted_offset: u32,
    pub offset: usize,
}

impl Default for WzOffsetMeta {
    fn default() -> (r: Self)
        ensures
            r.hash == 0,
            r.encrypted_offset == 0,
            r.offset == 0,
    {
        WzOffsetMeta { hash: 0, encrypted_offset: 0, offset: 0 }
    }
}

impl WzOffsetMeta {
    /// The low 32 bits of the hash.
    pub fn hash_u32(&self) -> (r: u32)
        ensures
            r == self.hash as u32,
    {
        self.hash as u32
    }
}

/// The PKG1 offset key: what the encrypted offset is xor-ed with, which
/// depends on where it is stored and on the hash, not on its value.
pub open spec fn spec_pkg1_offset_key(header: WzHeader, meta: WzOffsetMeta) -> u32 {
    let o1 = meta.offset.wrapping_sub(header.fstart) ^ 0xFFFFFFFF;
    let o2 = o1.wrapping_mul(meta.hash as u32 as usize) & 0xFFFFFFFF;
    let o3 = o2.wrapping_sub(WZ_OFFSET as usize);
    rotl32(o3 as u32, (o3 as u32) & 0x1F)
}

/// PKG1 offset.
pub open spec fn spec_wz_offset_pkg1(header: WzHeader, meta: WzOffsetMeta) -> usize {
    let header_size = header.fstart;
    let o4 = spec_pkg1_offset_key(header, meta) as usize;
    let o5 = (o4 ^ (meta.encrypted_offset as usize)) & 0xFFFFFFFF;
    o5.wrapping_add((header_size * 2) as usize) & 0xFFFFFFFF
}

/// PKG2 offset of versions 1196-1197.
pub open spec fn spec_wz_offset_pkg2(header: WzHeader, meta: WzOffsetMeta) -> u32 {
    let header_size = header.fstart as u32;
    let hash = meta.hash as u32;
    let hash1 = header.hash1 as u32;
    let o1 = !(meta.offset as u32).wrapping_sub(header_size);
    let o2 = o1.wrapping_mul(hash).wrapping_sub(WZ_OFFSET) ^ hash1.wrapping_mul(0x01010101);
    let o3 = rotl32(o2, (hash ^ hash1) & 0x1F);
    (o3 ^ meta.encrypted_offset).wrapping_add(header_size)
}

/// PKG2 offset of version 1198.
pub open spec fn spec_wz_offset_pkg2_v2(header: WzHeader, meta: WzOffsetMeta) -> u32 {
    let header_size = header.fstart as u32;
    let hash = meta.hash as u32;
    let hash1 = header.hash1 as u32;
    let o1 = !(meta.offset as u32).wrapping_sub(header_size);
    let o2 = o1.wrapping_mul(hash ^ hash1).wrapping_sub(WZ_OFFSET) ^ hash1.wrapping_mul(0x01010101);
    let o3 = rotl32(o2, (hash ^ hash1) & 0x1F);
    (o3 ^ !meta.encrypted_offset).wrapping_add(header_size)
}

/// PKG2 offset of versions 1199-1200.
pub open spec fn spec_wz_offset_pkg2_v3(header: WzHeader, meta: WzOffsetMeta) -> u32 {
    let header_size = header.fstart as u32;
    let hash1 = header.hash1 as u32;
    let pre_hash = hash1 ^ (meta.hash as u32);
    let mixed_hash = spec_mix_kmst1199(pre_hash ^ 0x6D4C3B2A) ^ 0x91E10DA5;
    let o1 = !(meta.offset as u32).wrapping_sub(header_size);
    let o2 = o1.wrapping_mul(pre_hash.wrapping_add(mixed_hash ^ 0xA7E3C093)).wrapping_sub(WZ_OFFSET);
    let o3 = o2 ^ hash1.wrapping_mul(0x01010101) ^ mixed_hash.wrapping_mul(0x9E3779B9);
    let o4 = rotl32(o3, (pre_hash ^ mixed_hash) & 0x1F);
    (o4 ^ !meta.encrypted_offset).wrapping_add(header_size)
}

/// The key shared by the KMST1202/1204 offset and entry field decryption.
pub open spec fn spec_pkg2_64_v1_shared_key(header: WzHeader, hash: u64, file_pos: u32) -> u32 {
    let header_size = header.fstart as u32;
    let hash1 = header.hash1 as u32;
    let pre_hash = hash1 ^ (hash as u32);
    let mixed_hash = pre_hash ^ 0x33BBBB33;
    let k1 = !file_pos.wrapping_sub(header_size);
    let k2 = k1.wrapping_mul(pre_hash.wrapping_add(mixed_hash ^ 0xA7E3C093)).wrapping_sub(WZ_OFFSET);
    let k3 = k2 ^ hash1.wrapping_mul(0x01010101) ^ mixed_hash.wrapping_mul(0x9E3779B9);
    rotl32(k3, 19)
}

/// KMST1202/1204 offset.
pub open spec fn spec_wz_offset_pkg2_64_v1(header: WzHeader, meta: WzOffsetMeta) -> u32 {
    let key = spec_pkg2_64_v1_shared_key(header, meta.hash, meta.offset as u32);
    (key ^ !meta.encrypted_offset).wrapping_add(header.fstart as u32)
}

/// The KMST1202/1204 entry count before the range check.
pub open spec fn spec_entry_count_64_v1(header: WzHeader, hash: u64, encrypted_entry_count: i64) -> i64 {
    (encrypted_entry_count ^ (header.hash1 as i64) ^ (hash as i64) ^ 0x550EC4DD02C468ECi64) >> 16i64
}

/// The key shared by the KMST1205 entry field decryption.
pub open spec fn spec_pkg2_64_v2_shared_key(header: WzHeader, hash: u64, file_pos: u32) -> u32 {
    let mixed = spec_mix_kmst1205(hash, header.hash1);
    let folded = (mixed as u32) ^ ((mixed >> 32u32) as u32);
    let hash1 = header.hash1 as u32;
    let relative_pos = file_pos.wrapping_sub(header.fstart as u32);
    let inner = folded.wrapping_add(0x2545_F491u32.wrapping_mul(relative_pos ^ (relative_pos >> 15u32)))
        .wrapping_add((hash as u32) ^ hash1);
    let rolled = rotl32(inner, (folded ^ hash1) & 0x1F);
    let v6lo = 0x85EB_CA77u32.wrapping_mul(rolled);
    let t = (v6lo ^ (v6lo >> 13u32)).wrapping_sub(0x3D4D_51C3u32.wrapping_mul(folded));
    t ^ rotl32(t, 16)
}

/// KMST1205 offset.
pub open spec fn spec_wz_offset_pkg2_64_v2(header: WzHeader, meta: WzOffsetMeta) -> u32 {
    let mixed = spec_mix_kmst1205(meta.hash, header.hash1) as u32;
    let hash1 = header.hash1 as u32;
    let hash_version = meta.hash as u32;
    let header_size = header.fstart as u32;
    let part1 = 0xC2B2_AE3Du32.wrapping_mul(mixed);
    let part2 = 0x85EB_CA77u32.wrapping_mul(hash1);
    let part3 = (hash1 ^ hash_version).wrapping_add(mixed ^ 0x2545_F491).wrapping_mul(
        !(meta.offset as u32).wrapping_sub(header_size),
    );
    let key = part1 ^ part2 ^ part3.wrapping_add(0x2545_F491);
    let rotation = (mixed ^ hash1 ^ hash_version) & 0x1F;
    (!meta.encrypted_offset ^ rotl32(key, rotation)).wrapping_add(header_size)
}

/// The key that the KMST1205 entry count is xor-ed with.
pub open spec fn spec_mix_pkg2_64_v2_entry_count(hash_version: u64, hash1: u64) -> u64 {
    let t1 = hash1 ^ 0x84CA_A73B_2BB7_0682;
    let v3 = rotr64(0xBF58_476D_1CE4_E5B9u64.wrapping_mul(t1 ^ (t1 >> 30u32)), 27);
    let sum1 = hash_version.wrapping_add(0x510E_527F_ADE6_82D1);
    let v4 = 0x9FB2_1C65_1E98_DF25u64.wrapping_mul(sum1 ^ rotr64(sum1, 25) ^ rotr64(sum1, 47));
    let tmp2 = 0x94D0_49BB_1331_11EBu64.wrapping_mul(v3 ^ (v3 >> 27u32));
    let v5 = v4 ^ ((v4 ^ (tmp2 >> 3u32)) >> 28u32);
    let t4 = hash_version.wrapping_add(hash1) ^ 0x6A09_E667_F3BC_C908;
    let v6 = 0x2545_F491_4F6C_DD1Du64.wrapping_mul(t4 ^ rotl64(t4, 23) ^ rotl64(t4, 41));
    let tmp3 = 0xBF58_476D_1CE4_E5B9u64.wrapping_mul(v6 ^ ((v6 >> 32u32) as u32 as u64));
    let x = tmp2 ^ v5;
    let v7 = (tmp3 ^ (tmp3 >> 29u32)) ^ x.wrapping_add(rotl64(x, 23));
    v7 ^ (v7 >> 31u32)
}

/// The KMST1205 entry count before the range check.
pub open spec fn spec_entry_count_64_v2(header: WzHeader, hash: u64, encrypted_entry_count: i64) -> u64 {
    ((encrypted_entry_count as u64) ^ spec_mix_pkg2_64_v2_entry_count(hash, header.hash1)) >> 16u32
}

impl OffsetCalculator {
    /// What this calculation gives for a header and an offset record.
    pub open spec fn spec_calculate(self, header: WzHeader, meta: WzOffsetMeta) -> usize {
        match self {
            OffsetCalculator::ReadWzOffset => spec_wz_offset_pkg1(header, meta),
            OffsetCalculator::ReadWzOffsetPkg2 => spec_wz_offset_pkg2(header, meta) as usize,
            OffsetCalculator::ReadWzOffsetPkg2V2 => spec_wz_offset_pkg2_v2(header, meta) as usize,
            OffsetCalculator::ReadWzOffsetPkg2V3 => spec_wz_offset_pkg2_v3(header, meta) as usize,
            OffsetCalculator::ReadWzOffsetPkg2_64V1 => spec_wz_offset_pkg2_64_v1(header, meta) as usize,
            OffsetCalculator::ReadWzOffsetPkg2_64V2 => spec_wz_offset_pkg2_64_v2(header, meta) as usize,
        }
    }

    /// Runs this calculation.
    pub fn calculate(&self, header: &WzHeader, meta: &WzOffsetMeta) -> (r: usize)
        requires
            *self == OffsetCalculator::ReadWzOffset ==> header.fstart * 2 <= usize::MAX,
        ensures
            r == self.spec_calculate(*header, *meta),
    {
        match self {
            OffsetCalculator::ReadWzOffset => read_wz_offset(header, meta),
            OffsetCalculator::ReadWzOffsetPkg2 => read_wz_offset_pkg2(header, meta),
            OffsetCalculator::ReadWzOffsetPkg2V2 => read_wz_offset_pkg2_v2(header, meta),
            OffsetCalculator::ReadWzOffsetPkg2V3 => read_wz_offset_pkg2_v3(header, meta),
            OffsetCalculator::ReadWzOffsetPkg2_64V1 => read_wz_offset_pkg2_64_v1(header, meta),
            OffsetCalculator::ReadWzOffsetPkg2_64V2 => read_wz_offset_pkg2_64_v2(header, meta),
        }
    }
}

impl EntryCountCalculator {
    /// Runs this entry count decryption.
    pub fn calculate(&self, header: &WzHeader, hash: u64, encrypted_entry_count: i64) -> (r: Result<usize, DirectoryError>)
        ensures
            *self == EntryCountCalculator::DecryptPkg2EntryCount64V1 ==> r == spec_decrypt_entry_count_64_v1(*header, hash, encrypted_entry_count),
            *self == EntryCountCalculator::DecryptPkg2EntryCount64V2 ==> r == spec_decrypt_entry_count_64_v2(*header, hash, encrypted_entry_count),
    {
        match self {
            EntryCountCalculator::DecryptPkg2EntryCount64V1 => decrypt_pkg2_entry_count_64_v1(header, hash, encrypted_entry_count),
            EntryCountCalculator::DecryptPkg2EntryCount64V2 => decrypt_pkg2_entry_count_64_v2(header, hash, encrypted_entry_count),
        }
    }
}

/// The decrypted KMST1202/1204 entry count: an error when it exceeds
/// `i32::MAX`.
pub open spec fn spec_decrypt_entry_count_64_v1(header: WzHeader, hash: u64, encrypted_entry_count: i64) -> Result<usize, DirectoryError> {
    let d = spec_entry_count_64_v1(header, hash, encrypted_entry_count);
    if d > i32::MAX {
        Err(DirectoryError::InvalidEntryCount)
    } else {
        Ok(d as usize)
    }
}

/// The decrypted KMST1205 entry count: an error when it exceeds `i32::MAX`.
pub open spec fn spec_decrypt_entry_count_64_v2(header: WzHeader, hash: u64, encrypted_entry_count: i64) -> Result<usize, DirectoryError> {
    let d = spec_entry_count_64_v2(header, hash, encrypted_entry_count);
    if d > i32::MAX {
        Err(DirectoryError::InvalidEntryCount)
    } else {
        Ok(d as usize)
    }
}

/// Calculates the offset of data such as a WZ image or directory in a PKG1
/// file.
pub fn read_wz_offset(header: &WzHeader, meta: &WzOffsetMeta) -> (r: usize)
    requires
        header.fstart * 2 <= usize::MAX,
    ensures
        r == spec_wz_offset_pkg1(*header, *meta),
{
    let header_size = header.fstart;
    let offset = meta.offset;
    let hash = meta.hash_u32() as usize;

    let offset = offset.wrapping_sub(header_size) ^ 0xFFFFFFFF;
    let offset = offset.wrapping_mul(hash) & 0xFFFFFFFF;
    let offset = offset.wrapping_sub(WZ_OFFSET as usize);
    let low = offset as u32;
    proof {
        lemma_shr_is_div_u32(low);
    }
    // the rotation is one of the low 32 bits
    let offset = rotate_left_u32(low, low & 0x1F) as usize;

    let offset = (offset ^ (meta.encrypted_offset as usize)) & 0xFFFFFFFF;
    offset.wrapping_add(header_size * 2) & 0xFFFFFFFF
}

/// Calculates the offset of data in a PKG2 file of versions 1196-1197.
pub fn read_wz_offset_pkg2(header: &WzHeader, meta: &WzOffsetMeta) -> (r: usize)
    ensures
        r == spec_wz_offset_pkg2(*header, *meta) as usize,
{
    let offset = meta.offset as u32;
    let header_size = header.fstart as u32;
    let hash = meta.hash_u32();
    let hash1 = header.hash1_u32();

    let distance = ((hash ^ hash1) & 0x1F) as u8;
    proof {
        lemma_shr_is_div_u32(hash ^ hash1);
    }

    let offset = offset.wrapping_sub(header_size);
    let offset = !offset;
    let offset = offset.wrapping_mul(hash);
    let offset = offset.wrapping_sub(WZ_OFFSET);
    let offset = offset ^ hash1.wrapping_mul(0x01010101);
    let offset = rotate_left_u32(offset, distance as u32);

    let offset = offset ^ meta.encrypted_offset;
    let offset = offset.wrapping_add(header_size);

    offset as usize
}

/// Calculates the offset of data in a PKG2 file of version 1198.
pub fn read_wz_offset_pkg2_v2(header: &WzHeader, meta: &WzOffsetMeta) -> (r: usize)
    ensures
        r == spec_wz_offset_pkg2_v2(*header, *meta) as usize,
{
    let offset = meta.offset as u32;
    let header_size = header.fstart as u32;
    let hash = meta.hash_u32();
    let hash1 = header.hash1_u32();

    let distance = ((hash ^ hash1) & 0x1F) as u8 as u32;
    proof {
        lemma_shr_is_div_u32(hash ^ hash1);
    }

    let offset = offset.wrapping_sub(header_size);
    let offset = !offset;
    let offset = offset.wrapping_mul(hash ^ hash1);
    let offset = offset.wrapping_sub(WZ_OFFSET);
    let offset = offset ^ hash1.wrapping_mul(0x01010101);
    let offset = rotate_left_u32(offset, distance);

    let offset = offset ^ !meta.encrypted_offset;
    let offset = offset.wrapping_add(header_size);

    offset as usize
}

/// Calculates the offset of data in a PKG2 file of versions 1199-1200.
pub fn read_wz_offset_pkg2_v3(header: &WzHeader, meta: &WzOffsetMeta) -> (r: usize)
    ensures
        r == spec_wz_offset_pkg2_v3(*header, *meta) as usize,
{
    let offset = meta.offset as u32;
    let header_size = header.fstart as u32;
    let hash = meta.hash_u32();
    let hash1 = header.hash1_u32();
    let pre_hash = hash1 ^ hash;
    let mixed_hash = mix_kmst1199(pre_hash ^ 0x6D4C3B2A) ^ 0x91E10DA5;
    let distance = (pre_hash ^ mixed_hash) & 0x1F;
    proof {
        lemma_shr_is_div_u32(pre_hash ^ mixed_hash);
    }

    let offset = offset.wrapping_sub(header_size);
    let offset = !offset;
    let offset = offset.wrapping_mul(pre_hash.wrapping_add(mixed_hash ^ 0xA7E3C093));
    let offset = offset.wrapping_sub(WZ_OFFSET);
    let offset = offset ^ hash1.wrapping_mul(0x01010101);
    let offset = offset ^ mixed_hash.wrapping_mul(0x9E3779B9);
    let offset = rotate_left_u32(offset, distance);
    let offset = offset ^ !meta.encrypted_offset;
    let offset = offset.wrapping_add(header_size);

    offset as usize
}

/// Shared key used by KMST1202/1204 offset and length decryption.
pub fn calc_pkg2_64_v1_shared_key(header: &WzHeader, hash: u64, file_pos: u32) -> (r: u32)
    ensures
        r == spec_pkg2_64_v1_shared_key(*header, hash, file_pos),
{
    let header_size = header.fstart as u32;
    let pre_hash = header.hash1_u32() ^ (hash as u32);
    let mixed_hash = pre_hash ^ 0x33BBBB33;

    let mut key = file_pos.wrapping_sub(header_size);
    key = !key;
    key = key.wrapping_mul(pre_hash.wrapping_add(mixed_hash ^ 0xA7E3C093));
    key = key.wrapping_sub(WZ_OFFSET);
    key ^= header.hash1_u32().wrapping_mul(0x01010101);
    key ^= mixed_hash.wrapping_mul(0x9E3779B9);
    rotate_left_u32(key, 19)
}

/// KMST1204 encrypts directory entry size/checksum with the shared offset key.
pub fn calc_pkg2_64_v1_length(header: &WzHeader, hash: u64, file_pos: u32, encrypted_value: i32) -> (r: i32)
    ensures
        r == encrypted_value ^ (spec_pkg2_64_v1_shared_key(*header, hash, file_pos) as i32),
{
    encrypted_value ^ (calc_pkg2_64_v1_shared_key(header, hash, file_pos) as i32)
}

/// Calculates the offset of data in a PKG2 file of versions 1202-1204.
pub fn read_wz_offset_pkg2_64_v1(header: &WzHeader, meta: &WzOffsetMeta) -> (r: usize)
    ensures
        r == spec_wz_offset_pkg2_64_v1(*header, *meta) as usize,
{
    let header_size = header.fstart as u32;
    let offset = calc_pkg2_64_v1_shared_key(header, meta.hash, meta.offset as u32);
    let offset = offset ^ !meta.encrypted_offset;
    let offset = offset.wrapping_add(header_size);

    offset as usize
}

/// Decrypts the KMST1202/1204 directory entry count.
pub fn decrypt_pkg2_entry_count_64_v1(header: &WzHeader, hash: u64, encrypted_entry_count: i64) -> (r: Result<usize, DirectoryError>)
    ensures
        r == spec_decrypt_entry_count_64_v1(*header, hash, encrypted_entry_count),
{
    let dir_count = (encrypted_entry_count ^ header.hash1 as i64 ^ hash as i64 ^ 0x550EC4DD02C468ECi64) >> 16i64;
    if dir_count > i32::MAX as i64 {
        return Err(DirectoryError::InvalidEntryCount);
    }
    Ok(dir_count as usize)
}

fn calc_pkg2_64_v2_shared_key(header: &WzHeader, hash: u64, file_pos: u32) -> (r: u32)
    ensures
        r == spec_pkg2_64_v2_shared_key(*header, hash, file_pos),
{
    let mixed = mix_kmst1205(hash, header.hash1);
    let folded = mixed as u32 ^ (mixed >> 32u32) as u32;
    let relative_pos = file_pos.wrapping_sub(header.fstart as u32);
    let inner = folded.wrapping_add(0x2545_F491u32.wrapping_mul(relative_pos ^ (relative_pos >> 15u32)))
        .wrapping_add(hash as u32 ^ header.hash1_u32());
    proof {
        let h1 = header.hash1 as u32;
        lemma_shr_is_div_u32(folded ^ h1);
    }
    let rolled = rotate_left_u32(inner, (folded ^ header.hash1_u32()) & 0x1F);
    let v6lo = 0x85EB_CA77u32.wrapping_mul(rolled);
    let t = (v6lo ^ (v6lo >> 13u32)).wrapping_sub(0x3D4D_51C3u32.wrapping_mul(folded));
    t ^ rotate_left_u32(t, 16)
}

/// KMST1205 encrypts directory entry size/checksum with its new shared key.
pub fn calc_pkg2_64_v2_length(header: &WzHeader, hash: u64, file_pos: u32, encrypted_value: i32) -> (r: i32)
    ensures
        r == encrypted_value ^ (spec_pkg2_64_v2_shared_key(*header, hash, file_pos) as i32),
{
    encrypted_value ^ calc_pkg2_64_v2_shared_key(header, hash, file_pos) as i32
}

/// Calculate an image/directory offset for KMST1205.
pub fn read_wz_offset_pkg2_64_v2(header: &WzHeader, meta: &WzOffsetMeta) -> (r: usize)
    ensures
        r == spec_wz_offset_pkg2_64_v2(*header, *meta) as usize,
{
    let mixed = mix_kmst1205(meta.hash, header.hash1) as u32;
    let hash1 = header.hash1_u32();
    let hash_version = meta.hash as u32;
    let file_pos = meta.offset as u32;
    let header_size = header.fstart as u32;

    let part1 = 0xC2B2_AE3Du32.wrapping_mul(mixed);
    let part2 = 0x85EB_CA77u32.wrapping_mul(hash1);
    let part3 = (hash1 ^ hash_version).wrapping_add(mixed ^ 0x2545_F491).wrapping_mul(
        !file_pos.wrapping_sub(header_size),
    );
    let key = part1 ^ part2 ^ part3.wrapping_add(0x2545_F491);
    let rotation = (mixed ^ hash1 ^ hash_version) & 0x1F;
    proof {
        lemma_shr_is_div_u32(mixed ^ hash1 ^ hash_version);
    }

    let offset = (!meta.encrypted_offset ^ rotate_left_u32(key, rotation)).wrapping_add(header_size);
    offset as usize
}

fn mix_pkg2_64_v2_entry_count(hash_version: u64, hash1: u64) -> (r: u64)
    ensures
        r == spec_mix_pkg2_64_v2_entry_count(hash_version, hash1),
{
    let t1 = hash1 ^ 0x84CA_A73B_2BB7_0682;
    let v3 = rotate_right_u64(0xBF58_476D_1CE4_E5B9u64.wrapping_mul(t1 ^ (t1 >> 30u32)), 27);

    let sum1 = hash_version.wrapping_add(0x510E_527F_ADE6_82D1);
    let v4 = 0x9FB2_1C65_1E98_DF25u64.wrapping_mul(
        sum1 ^ rotate_right_u64(sum1, 25) ^ rotate_right_u64(sum1, 47),
    );
    let tmp2 = 0x94D0_49BB_1331_11EBu64.wrapping_mul(v3 ^ (v3 >> 27u32));
    let v5 = v4 ^ ((v4 ^ (tmp2 >> 3u32)) >> 28u32);

    let t4 = hash_version.wrapping_add(hash1) ^ 0x6A09_E667_F3BC_C908;
    let v6 = 0x2545_F491_4F6C_DD1Du64.wrapping_mul(t4 ^ rotate_left_u64(t4, 23) ^ rotate_left_u64(t4, 41));
    let tmp3 = 0xBF58_476D_1CE4_E5B9u64.wrapping_mul(v6 ^ (v6 >> 32u32) as u32 as u64);
    let x = tmp2 ^ v5;
    let v7 = (tmp3 ^ (tmp3 >> 29u32)) ^ x.wrapping_add(rotate_left_u64(x, 23));
    v7 ^ (v7 >> 31u32)
}

/// Decrypts the KMST1205 directory entry count.
pub fn decrypt_pkg2_entry_count_64_v2(header: &WzHeader, hash: u64, encrypted_entry_count: i64) -> (r: Result<usize, DirectoryError>)
    ensures
        r == spec_decrypt_entry_count_64_v2(*header, hash, encrypted_entry_count),
{
    let dir_count = (encrypted_entry_count as u64 ^ mix_pkg2_64_v2_entry_count(hash, header.hash1)) >> 16u32;
    if dir_count > i32::MAX as u64 {
        return Err(DirectoryError::InvalidEntryCount);
    }
    Ok(dir_count as usize)
}

} // verus!
