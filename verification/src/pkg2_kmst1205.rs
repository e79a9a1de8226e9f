//! KMST1205 hash primitives: the hash-version seed of a client build string,
//! the shared hash of a file, and the keys derived from it for the second
//! header hash, the directory entry count, entry names, entry fields and
//! image offsets.

use vstd::prelude::*;
use vstd::string::StringSliceAdditionalSpecFns;
use crate::bits::{lemma_shr_is_div_u32, lemma_shr_is_div_u64, rotl32, rotl64, rotr64, rotate_left_u32, rotate_left_u64, rotate_right_u64};

verus! {

/// The hard-coded hash-version seed of KMST1205, which is the value of
/// `compute_pkg2_hash_version` on its build string.
pub const KMST1205_HASH_VERSION: u64 = 0x8F08_109B_6A61_D954;

/// The known KMST1205 client build strings.
pub const KMST1205_VERSION_STRINGS: [&'static str; 1] = ["v410_260106_1_A1F3C9E2"];

pub const MAGIC1: u64 = 0x84CA_A73B_2BB7_0682;
pub const MAGIC2: u64 = 0x510E_527F_ADE6_82D1;
pub const MAGIC3: u64 = 0xBF58_476D_1CE4_E5B9;
pub const MAGIC4: u64 = 0x94D0_49BB_1331_11EB;
pub const MAGIC5: u64 = 0x2545_F491_4F6C_DD1D;
pub const MAGIC6: u64 = 0x6A09_E667_F3BC_C908;
pub const MAGIC7: u32 = 0x2545_F491;
pub const MAGIC8: u32 = 0x85EB_CA77;
pub const MIX_MUL: u64 = 0x9FB2_1C65_1E98_DF25;

pub const FNV_PRIME: u64 = 0x0000_0100_0000_01B3;
pub const FNV_BASIS: u64 = 0xD7A2_44EE_D55C_C84D;

/// `value ^ (value >> shift)` on 64 bits.
pub open spec fn xsr64(value: u64, shift: u32) -> u64 {
    value ^ (value >> shift)
}

/// `value ^ (value >> shift)` on 32 bits.
pub open spec fn xsr32(value: u32, shift: u32) -> u32 {
    value ^ (value >> shift)
}

/// The low and the high half of a 64-bit word, xor-ed.
pub open spec fn fold64(value: u64) -> u32 {
    (value as u32) ^ ((value >> 32u32) as u32)
}

/// `multiplier * (value ^ (value >> shift))`, wrapping.
pub open spec fn mul_xsr(value: u64, multiplier: u64, shift: u32) -> u64 {
    multiplier.wrapping_mul(xsr64(value, shift))
}

pub open spec fn rot_mul_xsr30(value: u64) -> u64 {
    rotr64(mul_xsr(value, MAGIC3, 30), 27)
}

pub open spec fn mul_rotr_25_47(value: u64) -> u64 {
    MIX_MUL.wrapping_mul(value ^ rotr64(value, 25) ^ rotr64(value, 47))
}

pub open spec fn mul_rotl_23_41(value: u64) -> u64 {
    MAGIC5.wrapping_mul(value ^ rotl64(value, 23) ^ rotl64(value, 41))
}

pub open spec fn mul_xsr27(value: u64) -> u64 {
    mul_xsr(value, MAGIC4, 27)
}

/// 64-bit FNV-1a (with this format's basis) of a byte string.
pub open spec fn fnv1a(bytes: Seq<u8>) -> u64
    decreases bytes.len(),
{
    if bytes.len() == 0 {
        FNV_BASIS
    } else {
        (fnv1a(bytes.drop_last()) ^ (bytes.last() as u64)).wrapping_mul(FNV_PRIME)
    }
}

/// The hash-version seed of a build string given by its UTF-8 bytes:
/// FNV-1a followed by a splitmix64-style finaliser.
pub open spec fn spec_hash_version(bytes: Seq<u8>) -> u64 {
    xsr64(mul_xsr(mul_xsr(fnv1a(bytes), MAGIC3, 30), MAGIC4, 27), 31)
}

/// The KMST1205 shared hash of `hash1` and a hash version.
#[verifier::opaque]
pub open spec fn spec_shared_hash(hash1: u64, hash_version: u64) -> u64 {
    let a = mul_xsr(mul_xsr(rotl64(hash1 ^ 0x81B4_A012_24AA_B10C, 31), 0xFF51_AFD7_ED55_8CCD, 33),
        0xC4CE_B9FE_1A85_EC53, 29);
    let tmp1 = xsr64(a, 32);
    let temp2 = xsr64(mul_xsr27(rot_mul_xsr30(hash_version.wrapping_sub(0x2E4A_B5CD_2E6D_12FD) ^ MAGIC1)), 31);
    let value = mul_rotr_25_47(tmp1.wrapping_add(temp2).wrapping_add(MAGIC2));
    let value2 = tmp1 ^ value ^ rotl64(temp2, 17) ^ (value >> 28u32);
    xsr64(mul_xsr(value2, MAGIC4, 29), 32)
}

/// The second header hash of KMST1205.
pub open spec fn spec_hash2(hash1: u64, hash_version: u64) -> u64 {
    xsr64(mul_xsr27(rot_mul_xsr30(spec_shared_hash(hash1, hash_version) ^ MAGIC1)), 31)
}

/// The key that the directory entry count is xor-ed with.
pub open spec fn spec_directory_count_key(hash1: u64, hash_version: u64) -> u64 {
    let a = rot_mul_xsr30(hash1 ^ MAGIC1);
    let tmp2 = mul_xsr27(a);
    let b = mul_rotr_25_47(hash_version.wrapping_add(MAGIC2));
    let tmp1 = (xsr64(b, 28) ^ (tmp2 >> 31u32)) ^ tmp2;
    let k1 = mul_rotl_23_41(hash_version.wrapping_add(hash1) ^ MAGIC6);
    let k2 = MAGIC3.wrapping_mul(xsr64(k1, 32));
    let k3 = xsr64(k2, 29) ^ tmp1.wrapping_add(rotl64(tmp1, 23));
    xsr64(k3, 31)
}

/// The directory entry name key at a file position.
pub open spec fn spec_dir_entry_name_key(hash1: u64, hash_version: u64, file_pos: u64) -> u64 {
    let shared_hash = spec_shared_hash(hash1, hash_version);
    let p = 0xD1B5_4A32_D192_ED03u64.wrapping_mul(file_pos);
    let position_hash = p ^ rotl64(p, 32);
    let tmp1 = mul_rotr_25_47(position_hash.wrapping_add(shared_hash).wrapping_add(MAGIC2));
    let tmp2 = mul_rotl_23_41(position_hash ^ shared_hash ^ MAGIC6);
    let k1 = MAGIC3.wrapping_mul(xsr64(tmp2, 32));
    let k2 = xsr64(tmp1, 28) ^ xsr64(k1, 29);
    let k3 = rotl64(k2, (position_hash & 0x3F) as u32);
    xsr64(k3, 29)
}

/// The key that directory entry size/checksum fields are xor-ed with.
pub open spec fn spec_entry_field_key(hash1: u64, hash_version: u64, file_pos: u32) -> u32 {
    let mixed = fold64(spec_shared_hash(hash1, hash_version));
    let hash1_low = hash1 as u32;
    let hash_version_low = hash_version as u32;
    let k1 = mixed.wrapping_add(MAGIC7.wrapping_mul(xsr32(file_pos, 15))).wrapping_add(
        hash1_low ^ hash_version_low,
    );
    let k2 = rotl32(k1, (mixed ^ hash1_low) & 0x1F);
    let k3 = xsr32(MAGIC8.wrapping_mul(k2), 13);
    let k4 = k3.wrapping_sub(0x3D4D_51C3u32.wrapping_mul(mixed));
    k4 ^ rotl32(k4, 16)
}

/// The decrypted image offset.
pub open spec fn spec_image_offset(
    hash1: u64,
    hash_version: u64,
    header_len: u32,
    file_pos: u32,
    hashed_offset: u32,
) -> u32 {
    let mixed = spec_shared_hash(hash1, hash_version) as u32;
    let hash1_low = hash1 as u32;
    let hash_version_low = hash_version as u32;
    let k1 = (mixed ^ MAGIC7).wrapping_add(hash1_low ^ hash_version_low);
    let k2 = k1.wrapping_mul(!file_pos.wrapping_sub(header_len)).wrapping_add(MAGIC7);
    let k3 = k2 ^ (0xC2B2_AE3Du32.wrapping_mul(mixed) ^ MAGIC8.wrapping_mul(hash1_low));
    let k4 = rotl32(k3, (mixed ^ hash1_low ^ hash_version_low) & 0x1F);
    (!hashed_offset ^ k4).wrapping_add(header_len)
}

/// The hash-version seed of a client build string.
pub fn compute_pkg2_hash_version(version: &str) -> (r: u64)
    ensures
        r == spec_hash_version(version.spec_bytes()),
{
    let bytes = version.as_bytes();
    let mut hash: u64 = FNV_BASIS;
    let mut i: usize = 0;
    while i < bytes.len()
        invariant
            i <= bytes@.len(),
            hash == fnv1a(bytes@.take(i as int)),
        decreases bytes@.len() - i,
    {
        proof {
            assert(bytes@.take(i + 1).drop_last() =~= bytes@.take(i as int));
        }
        hash = (hash ^ (bytes[i] as u64)).wrapping_mul(FNV_PRIME);
        i += 1;
    }
    proof {
        assert(bytes@.take(bytes@.len() as int) =~= bytes@);
    }
    hash = MAGIC3.wrapping_mul(xor_shift_right(hash, 30));
    hash = MAGIC4.wrapping_mul(xor_shift_right(hash, 27));
    xor_shift_right(hash, 31)
}

/// Hash-version candidates to try against a KMST1205 header: the seeds of
/// the known build strings first, in their order, then the hard-coded seed.
pub fn kmst1205_hash_version_candidates() -> (r: Vec<u64>)
    ensures
        r@ == KMST1205_VERSION_STRINGS@.map_values(|s: &str| spec_hash_version(s.spec_bytes())).push(
            KMST1205_HASH_VERSION,
        ),
{
    let strings: &[&str] = &KMST1205_VERSION_STRINGS;
    let mut r: Vec<u64> = Vec::new();
    let mut i: usize = 0;
    while i < strings.len()
        invariant
            strings@ == KMST1205_VERSION_STRINGS@,
            i <= strings@.len(),
            r@ == strings@.take(i as int).map_values(|s: &str| spec_hash_version(s.spec_bytes())),
        decreases strings@.len() - i,
    {
        r.push(compute_pkg2_hash_version(strings[i]));
        proof {
            assert(strings@.take(i + 1) =~= strings@.take(i as int).push(strings@[i as int]));
        }
        i += 1;
    }
    proof {
        assert(strings@.take(strings@.len() as int) =~= strings@);
    }
    r.push(KMST1205_HASH_VERSION);
    r
}

fn xor_shift_right_u32(value: u32, shift: u32) -> (r: u32)
    requires
        shift < 32,
    ensures
        r == xsr32(value, shift),
{
    value ^ (value >> shift)
}

fn xor_shift_right(value: u64, shift: u32) -> (r: u64)
    requires
        shift < 64,
    ensures
        r == xsr64(value, shift),
{
    value ^ (value >> shift)
}

fn xor_fold_64_to_32(value: u64) -> (r: u32)
    ensures
        r == fold64(value),
{
    value as u32 ^ (value >> 32u32) as u32
}

fn multiply_xor_right(value: u64, multiplier: u64, shift: u32) -> (r: u64)
    requires
        shift < 64,
    ensures
        r == mul_xsr(value, multiplier, shift),
{
    multiplier.wrapping_mul(xor_shift_right(value, shift))
}

fn rotate_multiply_xor_right_30(value: u64) -> (r: u64)
    ensures
        r == rot_mul_xsr30(value),
{
    rotate_right_u64(multiply_xor_right(value, MAGIC3, 30), 27)
}

fn multiply_rotate_xor_right_25_47(value: u64) -> (r: u64)
    ensures
        r == mul_rotr_25_47(value),
{
    MIX_MUL.wrapping_mul(value ^ rotate_right_u64(value, 25) ^ rotate_right_u64(value, 47))
}

fn multiply_rotate_xor_left_23_41(value: u64) -> (r: u64)
    ensures
        r == mul_rotl_23_41(value),
{
    MAGIC5.wrapping_mul(value ^ rotate_left_u64(value, 23) ^ rotate_left_u64(value, 41))
}

fn multiply_xor_right_27(value: u64) -> (r: u64)
    ensures
        r == mul_xsr27(value),
{
    multiply_xor_right(value, MAGIC4, 27)
}

/// The KMST1205 shared hash of `hash1` and a hash version.
pub fn compute_shared_hash(hash1: u64, hash_version: u64) -> (r: u64)
    ensures
        r == spec_shared_hash(hash1, hash_version),
{
    reveal(spec_shared_hash);
    let mut tmp1 = rotate_left_u64(hash1 ^ 0x81B4_A012_24AA_B10C, 31);
    tmp1 = multiply_xor_right(tmp1, 0xFF51_AFD7_ED55_8CCD, 33);
    tmp1 = multiply_xor_right(tmp1, 0xC4CE_B9FE_1A85_EC53, 29);
    tmp1 = xor_shift_right(tmp1, 32);

    let mut temp2 = rotate_multiply_xor_right_30(
        hash_version.wrapping_sub(0x2E4A_B5CD_2E6D_12FD) ^ MAGIC1,
    );
    temp2 = xor_shift_right(multiply_xor_right_27(temp2), 31);

    let mut value = multiply_rotate_xor_right_25_47(tmp1.wrapping_add(temp2).wrapping_add(MAGIC2));
    value = tmp1 ^ value ^ rotate_left_u64(temp2, 17) ^ (value >> 28u32);
    value = multiply_xor_right(value, MAGIC4, 29);
    xor_shift_right(value, 32)
}

/// The second header hash of KMST1205.
pub fn compute_hash2(hash1: u64, hash_version: u64) -> (r: u64)
    ensures
        r == spec_hash2(hash1, hash_version),
{
    let shared_hash = compute_shared_hash(hash1, hash_version);
    let mut value = rotate_multiply_xor_right_30(shared_hash ^ MAGIC1);
    value = multiply_xor_right_27(value);
    xor_shift_right(value, 31)
}

/// The key that the KMST1205 directory entry count is xor-ed with.
pub fn compute_directory_count_key(hash1: u64, hash_version: u64) -> (r: u64)
    ensures
        r == spec_directory_count_key(hash1, hash_version),
{
    let mut tmp1 = rotate_multiply_xor_right_30(hash1 ^ MAGIC1);
    let tmp2 = multiply_xor_right_27(tmp1);
    tmp1 = multiply_rotate_xor_right_25_47(hash_version.wrapping_add(MAGIC2));
    tmp1 = xor_shift_right(tmp1, 28) ^ (tmp2 >> 31u32);
    tmp1 ^= tmp2;

    let mut key = hash_version.wrapping_add(hash1) ^ MAGIC6;
    key = multiply_rotate_xor_left_23_41(key);
    key = MAGIC3.wrapping_mul(xor_shift_right(key, 32));
    key = xor_shift_right(key, 29) ^ tmp1.wrapping_add(rotate_left_u64(tmp1, 23));
    xor_shift_right(key, 31)
}

/// The KMST1205 directory entry name key at a file position.
pub fn compute_dir_entry_name_key(hash1: u64, hash_version: u64, file_pos: u64) -> (r: u64)
    ensures
        r == spec_dir_entry_name_key(hash1, hash_version, file_pos),
{
    let shared_hash = compute_shared_hash(hash1, hash_version);
    let mut position_hash = 0xD1B5_4A32_D192_ED03u64.wrapping_mul(file_pos);
    position_hash ^= rotate_left_u64(position_hash, 32);

    let tmp1 = multiply_rotate_xor_right_25_47(
        position_hash.wrapping_add(shared_hash).wrapping_add(MAGIC2),
    );
    let tmp2 = multiply_rotate_xor_left_23_41(position_hash ^ shared_hash ^ MAGIC6);

    let mut key = MAGIC3.wrapping_mul(xor_shift_right(tmp2, 32));
    key = xor_shift_right(tmp1, 28) ^ xor_shift_right(key, 29);
    proof {
        lemma_shr_is_div_u64(position_hash);
    }
    key = rotate_left_u64(key, (position_hash & 0x3F) as u32);
    xor_shift_right(key, 29)
}

/// The KMST1205 key that directory entry size/checksum fields are xor-ed
/// with, at a position relative to the start of the data.
pub fn compute_entry_field_key(hash1: u64, hash_version: u64, file_pos: u32) -> (r: u32)
    ensures
        r == spec_entry_field_key(hash1, hash_version, file_pos),
{
    let mixed = xor_fold_64_to_32(compute_shared_hash(hash1, hash_version));
    let hash1_low = hash1 as u32;
    let hash_version_low = hash_version as u32;
    let mut key = mixed.wrapping_add(MAGIC7.wrapping_mul(xor_shift_right_u32(file_pos, 15))).wrapping_add(
        hash1_low ^ hash_version_low,
    );
    proof {
        lemma_shr_is_div_u32(mixed ^ hash1_low);
    }
    key = rotate_left_u32(key, (mixed ^ hash1_low) & 0x1F);
    key = xor_shift_right_u32(MAGIC8.wrapping_mul(key), 13);
    key = key.wrapping_sub(0x3D4D_51C3u32.wrapping_mul(mixed));
    key ^ rotate_left_u32(key, 16)
}

/// The decrypted KMST1205 image offset.
pub fn compute_image_offset(
    hash1: u64,
    hash_version: u64,
    header_len: u32,
    file_pos: u32,
    hashed_offset: u32,
) -> (r: u32)
    ensures
        r == spec_image_offset(hash1, hash_version, header_len, file_pos, hashed_offset),
{
    let mixed = compute_shared_hash(hash1, hash_version) as u32;
    let hash1_low = hash1 as u32;
    let hash_version_low = hash_version as u32;
    let mut key = (mixed ^ MAGIC7).wrapping_add(hash1_low ^ hash_version_low);
    key = key.wrapping_mul(!file_pos.wrapping_sub(header_len)).wrapping_add(MAGIC7);
    key ^= 0xC2B2_AE3Du32.wrapping_mul(mixed) ^ MAGIC8.wrapping_mul(hash1_low);
    proof {
        lemma_shr_is_div_u32(mixed ^ hash1_low ^ hash_version_low);
    }
    key = rotate_left_u32(key, (mixed ^ hash1_low ^ hash_version_low) & 0x1F);
    (!hashed_offset ^ key).wrapping_add(header_len)
}

} // verus!
