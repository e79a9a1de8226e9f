//! The KMST1205 keys, the KMST1205 offset and the PKG1 offset key stated
//! in plain arithmetic (shifts as divisions by powers of two, masks as
//! remainders, sums and products modulo the word size), and proved equal to
//! what the library computes for every input.

use vstd::prelude::*;
use crate::bits::{lemma_shr_is_div_u32, lemma_shr_is_div_u64, rotl32, rotl64, rotr64};
use crate::pkg2_decryptor::{spec_kmst1205_key, spec_mix_kmst1205};
use crate::header::WzHeader;
use crate::offset::{
    spec_pkg1_offset_key, spec_pkg2_64_v2_shared_key, spec_wz_offset_pkg1, spec_wz_offset_pkg2_64_v2,
    WzOffsetMeta,
};
use crate::pkg2_kmst1205::{spec_dir_entry_name_key, spec_entry_field_key, spec_image_offset, spec_shared_hash};
use crate::laws::{
    law_entry_field_key, law_image_offset, law_mix_kmst1205_is_shared_hash, lemma_pkg1_offset_unmasked,
};
use vstd::arithmetic::div_mod::{
    lemma_mod_add_multiples_vanish, lemma_mod_mod, lemma_mod_multiples_vanish, lemma_mod_sub_multiples_vanish,
    lemma_mul_mod_noop_left,
};

verus! {

/// `x` modulo 2^64.
pub open spec fn mod64(x: int) -> u64 {
    (x % 0x1_0000_0000_0000_0000) as u64
}

/// `x` modulo 2^32.
pub open spec fn mod32(x: int) -> u32 {
    (x % 0x1_0000_0000) as u32
}

/// The KMST1205 shared hash of `hash1` and a hash version.
#[verifier::opaque]
pub open spec fn plain_shared_hash(hash1: u64, hash_version: u64) -> u64 {
    let a = rotl64(hash1 ^ 0x81B4_A012_24AA_B10C, 31);
    let b = mod64(0xFF51_AFD7_ED55_8CCD * (a ^ (a / 0x2_0000_0000)));
    let c = mod64(0xC4CE_B9FE_1A85_EC53 * (b ^ (b / 0x2000_0000)));
    let x = c ^ (c / 0x1_0000_0000);
    let e = mod64(hash_version - 0x2E4A_B5CD_2E6D_12FD) ^ 0x84CA_A73B_2BB7_0682;
    let f = rotr64(mod64(0xBF58_476D_1CE4_E5B9 * (e ^ (e / 0x4000_0000))), 27);
    let g = mod64(0x94D0_49BB_1331_11EB * (f ^ (f / 0x800_0000)));
    let y = g ^ (g / 0x8000_0000);
    let s = mod64(x + y + 0x510E_527F_ADE6_82D1);
    let v = mod64(0x9FB2_1C65_1E98_DF25 * (s ^ rotr64(s, 25) ^ rotr64(s, 47)));
    let w = x ^ v ^ rotl64(y, 17) ^ (v / 0x1000_0000);
    let z = mod64(0x94D0_49BB_1331_11EB * (w ^ (w / 0x2000_0000)));
    z ^ (z / 0x1_0000_0000)
}

/// The position hash of a file position.
pub open spec fn plain_position_hash(file_position: u64) -> u64 {
    let m = mod64(0xD1B5_4A32_D192_ED03 * file_position);
    m ^ rotl64(m, 32)
}

/// The KMST1205 directory entry name key at a file position: the mixed
/// value is rotated left by the position hash modulo 64.
pub open spec fn plain_name_key(hash1: u64, hash_version: u64, file_position: u64) -> u64 {
    name_key_of(plain_shared_hash(hash1, hash_version), plain_position_hash(file_position))
}

/// The name key of a shared hash and a position hash.
pub open spec fn name_key_of(sh: u64, ph: u64) -> u64 {
    let t1 = mod64(ph + sh + 0x510E_527F_ADE6_82D1);
    let v45 = mod64(0x9FB2_1C65_1E98_DF25 * (t1 ^ rotr64(t1, 25) ^ rotr64(t1, 47)));
    let t2 = ph ^ sh ^ 0x6A09_E667_F3BC_C908;
    let v44 = mod64(0x2545_F491_4F6C_DD1D * (t2 ^ rotl64(t2, 23) ^ rotl64(t2, 41)));
    let k = mod64(0xBF58_476D_1CE4_E5B9 * (v44 ^ (v44 / 0x1_0000_0000)));
    let inner = (v45 ^ (v45 / 0x1000_0000)) ^ (k ^ (k / 0x2000_0000));
    let r = rotl64(inner, (ph % 64) as u32);
    r ^ (r / 0x2000_0000)
}

/// The shared hash of the library, in both of its forms, is the plain
/// shared hash.
pub proof fn law_shared_hash_plain(hash1: u64, hash_version: u64)
    ensures
        spec_shared_hash(hash1, hash_version) == plain_shared_hash(hash1, hash_version),
        spec_mix_kmst1205(hash_version, hash1) == plain_shared_hash(hash1, hash_version),
{
    reveal(spec_shared_hash);
    reveal(plain_shared_hash);
    law_mix_kmst1205_is_shared_hash(hash1, hash_version);
    let a = rotl64(hash1 ^ 0x81B4_A012_24AA_B10C, 31);
    assert(a >> 33u32 == a / 0x2_0000_0000) by {
        lemma_shr_is_div_u64(a);
    }
    let b = mod64(0xFF51_AFD7_ED55_8CCD * (a ^ (a / 0x2_0000_0000)));
    assert(b >> 29u32 == b / 0x2000_0000) by {
        lemma_shr_is_div_u64(b);
    }
    let c = mod64(0xC4CE_B9FE_1A85_EC53 * (b ^ (b / 0x2000_0000)));
    assert(c >> 32u32 == c / 0x1_0000_0000) by {
        lemma_shr_is_div_u64(c);
    }
    let x = c ^ (c / 0x1_0000_0000);
    let e = mod64(hash_version - 0x2E4A_B5CD_2E6D_12FD) ^ 0x84CA_A73B_2BB7_0682;
    assert(e >> 30u32 == e / 0x4000_0000) by {
        lemma_shr_is_div_u64(e);
    }
    let f = rotr64(mod64(0xBF58_476D_1CE4_E5B9 * (e ^ (e / 0x4000_0000))), 27);
    assert(f >> 27u32 == f / 0x800_0000) by {
        lemma_shr_is_div_u64(f);
    }
    let g = mod64(0x94D0_49BB_1331_11EB * (f ^ (f / 0x800_0000)));
    assert(g >> 31u32 == g / 0x8000_0000) by {
        lemma_shr_is_div_u64(g);
    }
    let y = g ^ (g / 0x8000_0000);
    let s = mod64(x + y + 0x510E_527F_ADE6_82D1);
    assert(x.wrapping_add(y).wrapping_add(0x510E_527F_ADE6_82D1) == s);
    let v = mod64(0x9FB2_1C65_1E98_DF25 * (s ^ rotr64(s, 25) ^ rotr64(s, 47)));
    assert(v >> 28u32 == v / 0x1000_0000) by {
        lemma_shr_is_div_u64(v);
    }
    let w = x ^ v ^ rotl64(y, 17) ^ (v / 0x1000_0000);
    assert(w >> 29u32 == w / 0x2000_0000) by {
        lemma_shr_is_div_u64(w);
    }
    let z = mod64(0x94D0_49BB_1331_11EB * (w ^ (w / 0x2000_0000)));
    assert(z >> 32u32 == z / 0x1_0000_0000) by {
        lemma_shr_is_div_u64(z);
    }
}

/// The KMST1205 name key in terms of the shared hash, the position hash
/// and the mixing of the two.
proof fn lemma_name_key_steps(sh: u64, ph: u64)
    ensures
        ({
            let t1 = ph.wrapping_add(sh).wrapping_add(0x510E_527F_ADE6_82D1);
            let v45 = 0x9FB2_1C65_1E98_DF25u64.wrapping_mul(t1 ^ rotr64(t1, 25) ^ rotr64(t1, 47));
            let t2 = ph ^ sh ^ 0x6A09_E667_F3BC_C908;
            let v44 = 0x2545_F491_4F6C_DD1Du64.wrapping_mul(t2 ^ rotl64(t2, 23) ^ rotl64(t2, 41));
            let kt = 0xBF58_476D_1CE4_E5B9u64.wrapping_mul(v44 ^ ((v44 >> 32u32) as u32 as u64));
            let inner = v45 ^ kt ^ (kt >> 29u32) ^ (v45 >> 28u32);
            let v46 = rotl64(inner, (ph & 0x3F) as u32);
            v46 ^ (v46 >> 29u32)
        }) == name_key_of(sh, ph),
{
    let t1 = mod64(ph + sh + 0x510E_527F_ADE6_82D1);
    assert(ph.wrapping_add(sh).wrapping_add(0x510E_527F_ADE6_82D1) == t1);
    let v45 = mod64(0x9FB2_1C65_1E98_DF25 * (t1 ^ rotr64(t1, 25) ^ rotr64(t1, 47)));
    let t2 = ph ^ sh ^ 0x6A09_E667_F3BC_C908;
    let v44 = mod64(0x2545_F491_4F6C_DD1D * (t2 ^ rotl64(t2, 23) ^ rotl64(t2, 41)));
    lemma_shr_is_div_u64(v44);
    let k = mod64(0xBF58_476D_1CE4_E5B9 * (v44 ^ (v44 / 0x1_0000_0000)));
    assert(v45 ^ k ^ (k >> 29u32) ^ (v45 >> 28u32) == (v45 ^ (v45 / 0x1000_0000)) ^ (k ^ (k
        / 0x2000_0000))) by (bit_vector);
    lemma_shr_is_div_u64(ph);
    let inner = (v45 ^ (v45 / 0x1000_0000)) ^ (k ^ (k / 0x2000_0000));
    let r = rotl64(inner, (ph % 64) as u32);
    lemma_shr_is_div_u64(r);
}

/// The KMST1205 string key of the decryptor is the plain name key, for
/// every position.
pub proof fn law_kmst1205_key_plain(hash1: u64, hash_version: u64, file_position: u64)
    ensures
        spec_kmst1205_key(hash1, hash_version, file_position) == plain_name_key(hash1, hash_version, file_position),
{
    law_shared_hash_plain(hash1, hash_version);
    let sh = plain_shared_hash(hash1, hash_version);
    let ph = plain_position_hash(file_position);
    lemma_name_key_steps(sh, ph);
}

/// The directory entry name key of the hash primitives is the plain name
/// key, for every position.
pub proof fn law_dir_entry_name_key_plain(hash1: u64, hash_version: u64, file_position: u64)
    ensures
        spec_dir_entry_name_key(hash1, hash_version, file_position) == plain_name_key(hash1, hash_version, file_position),
{
    law_kmst1205_key_plain(hash1, hash_version, file_position);
    crate::laws::law_kmst1205_key_is_dir_entry_name_key(hash1, hash_version, file_position);
}

/// The bitwise complement of a 32-bit word.
pub open spec fn complement32(x: u32) -> u32 {
    (0xFFFF_FFFF - x) as u32
}

/// The low and high halves of the shared hash, xor-ed.
pub open spec fn plain_folded_shared_hash(hash1: u64, hash_version: u64) -> u32 {
    let sh = plain_shared_hash(hash1, hash_version);
    ((sh % 0x1_0000_0000) ^ (sh / 0x1_0000_0000)) as u32
}

/// The KMST1205 entry size/checksum key at a position `relative_pos`
/// bytes past the start of the data.
#[verifier::opaque]
pub open spec fn plain_field_key(hash1: u64, hash_version: u64, relative_pos: u32) -> u32 {
    let f = plain_folded_shared_hash(hash1, hash_version);
    let hl = (hash1 % 0x1_0000_0000) as u32;
    let vl = (hash_version % 0x1_0000_0000) as u32;
    let inner = mod32(f + mod32(0x2545_F491 * (relative_pos ^ (relative_pos / 0x8000))) + (hl ^ vl));
    let rolled = rotl32(inner, (f ^ hl) % 32);
    let a = mod32(0x85EB_CA77 * rolled);
    let b = a ^ (a / 0x2000);
    let t = mod32(b - mod32(0x3D4D_51C3 * f));
    t ^ rotl32(t, 16)
}

proof fn lemma_field_key_steps(hash1: u64, hash_version: u64, relative_pos: u32)
    ensures
        spec_entry_field_key(hash1, hash_version, relative_pos) == plain_field_key(hash1, hash_version, relative_pos),
{
    reveal(plain_field_key);
    law_shared_hash_plain(hash1, hash_version);
    let sh = plain_shared_hash(hash1, hash_version);
    assert(((sh as u32) ^ ((sh >> 32u32) as u32)) == ((sh % 0x1_0000_0000) ^ (sh / 0x1_0000_0000)) as u32)
        by (bit_vector);
    let f = plain_folded_shared_hash(hash1, hash_version);
    assert(hash1 as u32 == (hash1 % 0x1_0000_0000) as u32 && hash_version as u32 == (hash_version
        % 0x1_0000_0000) as u32) by (bit_vector);
    let hl = (hash1 % 0x1_0000_0000) as u32;
    let vl = (hash_version % 0x1_0000_0000) as u32;
    lemma_shr_is_div_u32(relative_pos);
    let inner = mod32(f + mod32(0x2545_F491 * (relative_pos ^ (relative_pos / 0x8000))) + (hl ^ vl));
    assert(f.wrapping_add(0x2545_F491u32.wrapping_mul(relative_pos ^ (relative_pos >> 15u32))).wrapping_add(
        hl ^ vl,
    ) == inner);
    lemma_shr_is_div_u32(f ^ hl);
    let rolled = rotl32(inner, (f ^ hl) % 32);
    let a = mod32(0x85EB_CA77 * rolled);
    lemma_shr_is_div_u32(a);
}

/// The KMST1205 entry field key of the hash primitives is the plain field
/// key, and the key that the offset module xors entry fields with is the
/// plain field key at the position relative to the start of the data.
pub proof fn law_field_key_plain(header: WzHeader, hash: u64, file_pos: u32, relative_pos: u32)
    ensures
        spec_entry_field_key(header.hash1, hash, relative_pos) == plain_field_key(header.hash1, hash, relative_pos),
        spec_pkg2_64_v2_shared_key(header, hash, file_pos) == plain_field_key(
            header.hash1,
            hash,
            mod32(file_pos - (header.fstart as u32)),
        ),
{
    lemma_field_key_steps(header.hash1, hash, relative_pos);
    let rp = file_pos.wrapping_sub(header.fstart as u32);
    assert(rp == mod32(file_pos - (header.fstart as u32)));
    lemma_field_key_steps(header.hash1, hash, rp);
    law_entry_field_key(header, hash, file_pos);
}

/// The KMST1205 offset key of a file and of a position: the key is rotated
/// left by the low bits of the mixed hashes modulo 32.
#[verifier::opaque]
pub open spec fn plain_image_key(hash1: u64, hash_version: u64, header_len: u32, file_pos: u32) -> u32 {
    let m = (plain_shared_hash(hash1, hash_version) % 0x1_0000_0000) as u32;
    let hl = (hash1 % 0x1_0000_0000) as u32;
    let vl = (hash_version % 0x1_0000_0000) as u32;
    let k1 = mod32((m ^ 0x2545_F491) + (hl ^ vl));
    let d = mod32(file_pos - header_len);
    let k2 = mod32(mod32(k1 * (0xFFFF_FFFF - d)) + 0x2545_F491);
    let k3 = k2 ^ mod32(0xC2B2_AE3D * m) ^ mod32(0x85EB_CA77 * hl);
    rotl32(k3, (m ^ hl ^ vl) % 32)
}

/// What a KMST1205 file stores for the offset `plain`.
pub open spec fn plain_encrypt_offset(hash1: u64, hash_version: u64, header_len: u32, file_pos: u32, plain: u32) -> u32 {
    complement32(mod32(plain - header_len) ^ plain_image_key(hash1, hash_version, header_len, file_pos))
}

proof fn lemma_image_offset_steps(hash1: u64, hash_version: u64, header_len: u32, file_pos: u32, hashed_offset: u32)
    ensures
        spec_image_offset(hash1, hash_version, header_len, file_pos, hashed_offset) == mod32(
            (complement32(hashed_offset) ^ plain_image_key(hash1, hash_version, header_len, file_pos))
                + header_len,
        ),
{
    reveal(plain_image_key);
    law_shared_hash_plain(hash1, hash_version);
    let sh = plain_shared_hash(hash1, hash_version);
    assert(sh as u32 == (sh % 0x1_0000_0000) as u32 && hash1 as u32 == (hash1 % 0x1_0000_0000) as u32
        && hash_version as u32 == (hash_version % 0x1_0000_0000) as u32) by (bit_vector);
    let m = (sh % 0x1_0000_0000) as u32;
    let hl = (hash1 % 0x1_0000_0000) as u32;
    let vl = (hash_version % 0x1_0000_0000) as u32;
    let d = file_pos.wrapping_sub(header_len);
    assert(!d == (0xFFFF_FFFF - d) as u32) by (bit_vector);
    assert(!hashed_offset == (0xFFFF_FFFF - hashed_offset) as u32) by (bit_vector);
    lemma_shr_is_div_u32(m ^ hl ^ vl);
    let k1 = mod32((m ^ 0x2545_F491) + (hl ^ vl));
    assert((m ^ 0x2545_F491u32).wrapping_add(hl ^ vl) == k1);
    assert(d == mod32(file_pos - header_len));
    let k2 = mod32(mod32(k1 * (0xFFFF_FFFF - d)) + 0x2545_F491);
    assert(k1.wrapping_mul(!d).wrapping_add(0x2545_F491) == k2);
    let a = 0xC2B2_AE3Du32.wrapping_mul(m);
    let b = 0x85EB_CA77u32.wrapping_mul(hl);
    assert(a == mod32(0xC2B2_AE3D * m) && b == mod32(0x85EB_CA77 * hl));
    assert(k2 ^ (a ^ b) == k2 ^ a ^ b) by (bit_vector);
}

/// Decrypting a KMST1205 offset with `compute_image_offset` xors the
/// complement of the stored value with the offset key and adds the header
/// length; so decrypting what `plain_encrypt_offset` stores for an offset
/// gives back that offset, for every file and position.
pub proof fn law_image_offset_round_trip(hash1: u64, hash_version: u64, header_len: u32, file_pos: u32, hashed_offset: u32, plain: u32)
    ensures
        spec_image_offset(hash1, hash_version, header_len, file_pos, hashed_offset) == mod32(
            (complement32(hashed_offset) ^ plain_image_key(hash1, hash_version, header_len, file_pos))
                + header_len,
        ),
        spec_image_offset(
            hash1,
            hash_version,
            header_len,
            file_pos,
            plain_encrypt_offset(hash1, hash_version, header_len, file_pos, plain),
        ) == plain,
{
    lemma_image_offset_steps(hash1, hash_version, header_len, file_pos, hashed_offset);
    let enc = plain_encrypt_offset(hash1, hash_version, header_len, file_pos, plain);
    lemma_image_offset_steps(hash1, hash_version, header_len, file_pos, enc);
    let k = plain_image_key(hash1, hash_version, header_len, file_pos);
    let x = mod32(plain - header_len);
    assert((0xFFFF_FFFFu32 - (0xFFFF_FFFFu32 - (x ^ k)) as u32) as u32 ^ k == x) by (bit_vector);
}

/// The KMST1205 offset that the offset module reads is the plain offset
/// decryption, and gives back every offset stored by `plain_encrypt_offset`.
pub proof fn law_wz_offset_pkg2_64_v2_round_trip(header: WzHeader, meta: WzOffsetMeta, plain: u32)
    ensures
        spec_wz_offset_pkg2_64_v2(header, meta) == mod32(
            (complement32(meta.encrypted_offset) ^ plain_image_key(
                header.hash1,
                meta.hash,
                header.fstart as u32,
                meta.offset as u32,
            )) + (header.fstart as u32),
        ),
        meta.encrypted_offset == plain_encrypt_offset(
            header.hash1,
            meta.hash,
            header.fstart as u32,
            meta.offset as u32,
            plain,
        ) ==> spec_wz_offset_pkg2_64_v2(header, meta) == plain,
{
    law_image_offset(header, meta);
    law_image_offset_round_trip(
        header.hash1,
        meta.hash,
        header.fstart as u32,
        meta.offset as u32,
        meta.encrypted_offset,
        plain,
    );
}

/// The PKG1 offset key: the position relative to the header, complemented,
/// times the low half of the hash, less `WZ_OFFSET`, all modulo 2^32, and
/// then rotated left by itself modulo 32.
pub open spec fn plain_pkg1_key(fstart: usize, offset: usize, hash: u64) -> u32 {
    let o1 = mod32(offset - fstart) ^ 0xFFFF_FFFF;
    let o2 = mod32(o1 * (hash % 0x1_0000_0000));
    let o3 = mod32(o2 - 0x581C_3F6D);
    rotl32(o3, o3 % 32)
}

/// A value that differs from `x` by at most one machine word range has the
/// same low 32 bits.
proof fn lemma_usize_wrap_mod32(w: int, x: int)
    requires
        w == x || w == x + (usize::MAX + 1) || w == x - (usize::MAX + 1),
    ensures
        w % 0x1_0000_0000 == x % 0x1_0000_0000,
{
    assert(usize::MAX == 0xFFFF_FFFF || usize::MAX == 0xFFFF_FFFF_FFFF_FFFF);
    if usize::MAX == 0xFFFF_FFFF {
        if w == x + (usize::MAX + 1) {
            lemma_mod_add_multiples_vanish(x, 0x1_0000_0000);
        } else if w == x - (usize::MAX + 1) {
            lemma_mod_sub_multiples_vanish(x, 0x1_0000_0000);
        }
    } else {
        if w == x + (usize::MAX + 1) {
            lemma_mod_multiples_vanish(0x1_0000_0000, x, 0x1_0000_0000);
        } else if w == x - (usize::MAX + 1) {
            lemma_mod_multiples_vanish(-0x1_0000_0000, x, 0x1_0000_0000);
        }
    }
}

/// The PKG1 offset key of the offset module is the plain PKG1 key, on
/// 32-bit and on 64-bit targets.
pub proof fn law_pkg1_key_plain(header: WzHeader, meta: WzOffsetMeta)
    ensures
        spec_pkg1_offset_key(header, meta) == plain_pkg1_key(header.fstart, meta.offset, meta.hash),
{
    let fstart = header.fstart;
    let offset = meta.offset;
    let ws = offset.wrapping_sub(fstart);
    lemma_usize_wrap_mod32(ws as int, offset - fstart);
    let o1u = ws ^ 0xFFFFFFFF;
    assert((o1u as u32) == (ws as u32) ^ 0xFFFF_FFFF && (ws as u32) as u64 == (ws as u64) % 0x1_0000_0000) by (bit_vector)
        requires
            o1u == ws ^ 0xFFFFFFFF,
    ;
    let o1 = mod32(offset - fstart) ^ 0xFFFF_FFFF;
    assert(o1u as u32 == o1);
    let hash = meta.hash;
    let h32 = hash as u32;
    assert(h32 == (hash % 0x1_0000_0000) as u32) by (bit_vector)
        requires
            h32 == hash as u32,
    ;
    let wm = o1u.wrapping_mul(h32 as usize);
    let o2u = wm & 0xFFFFFFFF;
    assert((o2u as u64) < 0x1_0000_0000 && (o2u as u64) == (wm as u64) % 0x1_0000_0000 && (o1u as u32) as u64
        == (o1u as u64) % 0x1_0000_0000)
        by (bit_vector)
        requires
            o2u == wm & 0xFFFFFFFF,
    ;
    assert(usize::MAX == 0xFFFF_FFFF || usize::MAX == 0xFFFF_FFFF_FFFF_FFFF);
    let c: int = if usize::MAX == 0xFFFF_FFFF { 1 } else { 0x1_0000_0000 };
    assert(usize::MAX + 1 == 0x1_0000_0000 * c);
    lemma_mod_mod(o1u as int * h32 as int, 0x1_0000_0000, c);
    lemma_mul_mod_noop_left(o1u as int, h32 as int, 0x1_0000_0000);
    let o2 = mod32(o1 * (meta.hash % 0x1_0000_0000));
    assert(o2u as int == o2 as int);
    let o3u = o2u.wrapping_sub(0x581C3F6D);
    lemma_usize_wrap_mod32(o3u as int, o2u - 0x581C3F6D);
    assert((o3u as u32) as u64 == (o3u as u64) % 0x1_0000_0000) by (bit_vector);
    let o3 = mod32(o2 - 0x581C_3F6D);
    assert(o3u as u32 == o3);
    lemma_shr_is_div_u32(o3);
}

/// A PKG1 offset is the encrypted offset xor-ed with the plain PKG1 key,
/// plus twice the header size, modulo 2^32.
pub proof fn law_pkg1_offset_plain(header: WzHeader, meta: WzOffsetMeta)
    requires
        header.fstart * 2 <= usize::MAX,
    ensures
        spec_wz_offset_pkg1(header, meta) == mod32(
            (plain_pkg1_key(header.fstart, meta.offset, meta.hash) ^ meta.encrypted_offset) + 2 * header.fstart,
        ),
{
    lemma_pkg1_offset_unmasked(header, meta);
    law_pkg1_key_plain(header, meta);
    let r = spec_wz_offset_pkg1(header, meta);
    let s = (2 * header.fstart) as u32;
    let v = plain_pkg1_key(header.fstart, meta.offset, meta.hash) ^ meta.encrypted_offset;
    let s2 = 2 * header.fstart;
    let fs = header.fstart;
    let s2u = (2 * fs) as usize;
    assert(s2u == s2);
    assert(s as u64 == (s2u as u64) % 0x1_0000_0000) by (bit_vector)
        requires
            s == s2u as u32,
    ;
    assert((r as u32).wrapping_sub(s) == v);
    assert(r as u32 == r);
    assert(r as int == (v + s2) % 0x1_0000_0000);
}

} // verus!
