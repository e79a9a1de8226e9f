//! Properties that relate several functions of the library.

use vstd::prelude::*;
use crate::bits::{rotl64, rotr64};
use crate::header::{PKGVersion, WzHeader};
use crate::offset::{
    has_entry_count_calculator, spec_mix_pkg2_64_v2_entry_count, spec_pkg1_offset_key, spec_wz_offset_pkg1, spec_pkg2_64_v1_shared_key,
    spec_pkg2_64_v2_shared_key, spec_wz_offset_pkg2_64_v2, WzOffsetMeta,
};
use crate::pkg2_decryptor::{spec_kmst1205_key, spec_mix_kmst1205, xor_keystream, Pkg2Decryptor};
use crate::pkg2_kmst1205::{
    spec_dir_entry_name_key, spec_directory_count_key, spec_entry_field_key, spec_image_offset,
    spec_shared_hash,
};
use crate::profile::{
    is_entry_encrypting_version, is_pkg2_64_version, spec_all_pkg2_profiles, spec_matches_header,
    WzProfileVersion,
};
use crate::string_decryptor::is_position_dependent;

verus! {

proof fn lemma_wrapping_add_assoc(a: u64, b: u64, c: u64)
    ensures
        a.wrapping_add(b).wrapping_add(c) == a.wrapping_add(b.wrapping_add(c)),
{
}

/// The KMST1205 mixer of the string decryptor and the shared hash of the
/// KMST1205 hash primitives are the same function (with the arguments in
/// the other order).
pub proof fn law_mix_kmst1205_is_shared_hash(hash1: u64, hash_version: u64)
    ensures
        spec_mix_kmst1205(hash_version, hash1) == spec_shared_hash(hash1, hash_version),
{
    reveal(spec_mix_kmst1205);
    reveal(spec_shared_hash);
    let v2 = rotl64(hash1 ^ 0x81B4_A012_24AA_B10C, 31);
    let t1 = 0xFF51_AFD7_ED55_8CCDu64.wrapping_mul(v2 ^ (v2 >> 33u32));
    let v3a = 0xC4CE_B9FE_1A85_EC53u64.wrapping_mul(t1 ^ (t1 >> 29u32));
    let v3 = v3a ^ (v3a >> 32u32);
    let a = hash_version.wrapping_sub(0x2E4A_B5CD_2E6D_12FD);
    let t2 = a ^ 0x84CA_A73B_2BB7_0682;
    let v4 = rotr64(0xBF58_476D_1CE4_E5B9u64.wrapping_mul(t2 ^ (t2 >> 30u32)), 27);
    let v5x = 0x94D0_49BB_1331_11EBu64.wrapping_mul(v4 ^ (v4 >> 27u32));
    let v5 = v5x ^ (v5x >> 31u32);
    lemma_wrapping_add_assoc(v3, v5, 0x510E_527F_ADE6_82D1);
}

/// The KMST1205 position-dependent string key of the decryptor is the
/// directory entry name key of the KMST1205 hash primitives.
pub proof fn law_kmst1205_key_is_dir_entry_name_key(hash1: u64, hash_version: u64, file_position: u64)
    ensures
        spec_kmst1205_key(hash1, hash_version, file_position)
            == spec_dir_entry_name_key(hash1, hash_version, file_position),
{
    law_mix_kmst1205_is_shared_hash(hash1, hash_version);
    let mixed = spec_mix_kmst1205(hash_version, hash1);
    let mul1 = 0xD1B5_4A32_D192_ED03u64.wrapping_mul(file_position);
    let v43 = mul1 ^ rotl64(mul1, 32);
    let t1 = v43 ^ mixed ^ 0x6A09_E667_F3BC_C908;
    let v44 = 0x2545_F491_4F6C_DD1Du64.wrapping_mul(t1 ^ rotl64(t1, 23) ^ rotl64(t1, 41));
    let sum1 = v43.wrapping_add(mixed).wrapping_add(0x510E_527F_ADE6_82D1);
    let v45 = 0x9FB2_1C65_1E98_DF25u64.wrapping_mul(sum1 ^ rotr64(sum1, 25) ^ rotr64(sum1, 47));
    assert((v44 >> 32u32) as u32 as u64 == v44 >> 32u32) by (bit_vector);
    let t2 = 0xBF58_476D_1CE4_E5B9u64.wrapping_mul(v44 ^ (v44 >> 32u32));
    assert(v45 ^ t2 ^ (t2 >> 29u32) ^ (v45 >> 28u32) == (v45 ^ (v45 >> 28u32)) ^ (t2 ^ (t2 >> 29u32)))
        by (bit_vector);
}

/// The KMST1205 entry size/checksum key of the offset module is the entry
/// field key of the KMST1205 hash primitives at the position relative to
/// the start of the data.
pub proof fn law_entry_field_key(header: WzHeader, hash: u64, file_pos: u32)
    ensures
        spec_pkg2_64_v2_shared_key(header, hash, file_pos)
            == spec_entry_field_key(header.hash1, hash, file_pos.wrapping_sub(header.fstart as u32)),
{
    law_mix_kmst1205_is_shared_hash(header.hash1, hash);
    let h1 = header.hash1 as u32;
    let hv = hash as u32;
    assert(hv ^ h1 == h1 ^ hv) by (bit_vector);
}

/// The KMST1205 offset of the offset module is the image offset of the
/// KMST1205 hash primitives.
pub proof fn law_image_offset(header: WzHeader, meta: WzOffsetMeta)
    ensures
        spec_wz_offset_pkg2_64_v2(header, meta) == spec_image_offset(
            header.hash1,
            meta.hash,
            header.fstart as u32,
            meta.offset as u32,
            meta.encrypted_offset,
        ),
{
    law_mix_kmst1205_is_shared_hash(header.hash1, meta.hash);
    let mixed = spec_mix_kmst1205(meta.hash, header.hash1) as u32;
    let hash1 = header.hash1 as u32;
    let hash_version = meta.hash as u32;
    let header_size = header.fstart as u32;
    let x = hash1 ^ hash_version;
    let y = mixed ^ 0x2545_F491;
    assert(x.wrapping_add(y) == y.wrapping_add(x));
    let part1 = 0xC2B2_AE3Du32.wrapping_mul(mixed);
    let part2 = 0x85EB_CA77u32.wrapping_mul(hash1);
    let p3 = x.wrapping_add(y).wrapping_mul(!(meta.offset as u32).wrapping_sub(header_size)).wrapping_add(
        0x2545_F491,
    );
    assert(part1 ^ part2 ^ p3 == p3 ^ (part1 ^ part2)) by (bit_vector);
}

/// The KMST1205 entry count key of the offset module is the directory count
/// key of the KMST1205 hash primitives.
pub proof fn law_directory_count_key(hash1: u64, hash_version: u64)
    ensures
        spec_mix_pkg2_64_v2_entry_count(hash_version, hash1) == spec_directory_count_key(hash1, hash_version),
{
    let t1 = hash1 ^ 0x84CA_A73B_2BB7_0682;
    let v3 = rotr64(0xBF58_476D_1CE4_E5B9u64.wrapping_mul(t1 ^ (t1 >> 30u32)), 27);
    let sum1 = hash_version.wrapping_add(0x510E_527F_ADE6_82D1);
    let v4 = 0x9FB2_1C65_1E98_DF25u64.wrapping_mul(sum1 ^ rotr64(sum1, 25) ^ rotr64(sum1, 47));
    let tmp2 = 0x94D0_49BB_1331_11EBu64.wrapping_mul(v3 ^ (v3 >> 27u32));
    assert(tmp2 ^ (v4 ^ ((v4 ^ (tmp2 >> 3u32)) >> 28u32)) == ((v4 ^ (v4 >> 28u32)) ^ (tmp2 >> 31u32))
        ^ tmp2) by (bit_vector);
    let t4 = hash_version.wrapping_add(hash1) ^ 0x6A09_E667_F3BC_C908;
    let v6 = 0x2545_F491_4F6C_DD1Du64.wrapping_mul(t4 ^ rotl64(t4, 23) ^ rotl64(t4, 41));
    assert((v6 >> 32u32) as u32 as u64 == v6 >> 32u32) by (bit_vector);
}

proof fn lemma_keystream_involution(data: Seq<u8>, keys: Seq<u8>)
    ensures
        xor_keystream(xor_keystream(data, keys), keys) == data,
{
    assert forall|i: int| 0 <= i < data.len() implies #[trigger] xor_keystream(
        xor_keystream(data, keys),
        keys,
    )[i] == data[i] by {
        let a = data[i];
        let b = keys[i % 8];
        assert((a ^ b) ^ b == a) by (bit_vector);
    }
    assert(xor_keystream(xor_keystream(data, keys), keys) =~= data);
}

/// Decrypting with `decrypt_slice` twice gives back the original data.
pub proof fn law_decrypt_slice_involution(decryptor: Pkg2Decryptor, data: Seq<u8>)
    ensures
        xor_keystream(xor_keystream(data, decryptor@.keys), decryptor@.keys) == data,
{
    lemma_keystream_involution(data, decryptor@.keys);
}

/// Decrypting with `decrypt_slice_with_offset` twice at the same offset
/// gives back the original data.
pub proof fn law_decrypt_slice_with_offset_involution(decryptor: Pkg2Decryptor, data: Seq<u8>, offset: u64)
    ensures
        xor_keystream(xor_keystream(data, decryptor@.keys_at(offset)), decryptor@.keys_at(offset)) == data,
{
    lemma_keystream_involution(data, decryptor@.keys_at(offset));
}

/// `decrypt_slice_with_offset(data, p)` decrypts as `apply_file_position(p)`
/// followed by `decrypt_slice(data)` does.
pub proof fn law_offset_decrypt_is_positioned_decrypt(decryptor: Pkg2Decryptor, file_position: u64)
    ensures
        decryptor@.at_position(file_position).keys == decryptor@.keys_at(file_position),
{
}

/// For schemes that do not depend on the file position,
/// `decrypt_slice_with_offset` ignores the offset.
pub proof fn law_offset_ignored_without_position(decryptor: Pkg2Decryptor, offset: u64)
    requires
        !is_position_dependent(decryptor@.enc_type),
    ensures
        decryptor@.keys_at(offset) == decryptor@.keys,
{
}

/// Decrypting a KMST1204 entry field twice gives back the stored value.
pub proof fn law_pkg2_64_v1_length_involution(header: WzHeader, hash: u64, file_pos: u32, value: i32)
    ensures
        (value ^ (spec_pkg2_64_v1_shared_key(header, hash, file_pos) as i32)) ^ (spec_pkg2_64_v1_shared_key(
            header,
            hash,
            file_pos,
        ) as i32) == value,
{
    let k = spec_pkg2_64_v1_shared_key(header, hash, file_pos) as i32;
    assert((value ^ k) ^ k == value) by (bit_vector);
}

/// Decrypting a KMST1205 entry field twice gives back the stored value.
pub proof fn law_pkg2_64_v2_length_involution(header: WzHeader, hash: u64, file_pos: u32, value: i32)
    ensures
        (value ^ (spec_pkg2_64_v2_shared_key(header, hash, file_pos) as i32)) ^ (spec_pkg2_64_v2_shared_key(
            header,
            hash,
            file_pos,
        ) as i32) == value,
{
    let k = spec_pkg2_64_v2_shared_key(header, hash, file_pos) as i32;
    assert((value ^ k) ^ k == value) by (bit_vector);
}

/// The revisions that encrypt entry fields and decrypt every entry name with
/// the PKG2 V2 key are revisions of the 64-bit layout, and the one that
/// stores names after the data is one of them.
pub proof fn law_entry_encryption_implies_pkg2_64(name: WzProfileVersion)
    ensures
        is_entry_encrypting_version(name) ==> is_pkg2_64_version(name),
        name == WzProfileVersion::Pkg2V1205 ==> is_entry_encrypting_version(name),
{
}

/// In the table of PKG2 profiles: a profile is of the 64-bit layout exactly
/// when its offset scheme has an entry count decryption, it encrypts entry
/// fields exactly when its string decryptor depends on the file position,
/// and no revision occurs twice.
pub proof fn law_pkg2_profile_table(i: int, j: int)
    requires
        0 <= i < spec_all_pkg2_profiles().len(),
        0 <= j < spec_all_pkg2_profiles().len(),
    ensures
        is_pkg2_64_version(spec_all_pkg2_profiles()[i].name) <==> has_entry_count_calculator(
            spec_all_pkg2_profiles()[i].offset_version,
        ),
        is_entry_encrypting_version(spec_all_pkg2_profiles()[i].name) <==> is_position_dependent(
            spec_all_pkg2_profiles()[i].decryptor_type,
        ),
        i != j ==> spec_all_pkg2_profiles()[i].name != spec_all_pkg2_profiles()[j].name,
{
}

/// The PKG1 offset is a 32-bit value, and with twice the header size taken
/// off (modulo 2^32) it is the encrypted offset xor-ed with the offset key.
pub proof fn lemma_pkg1_offset_unmasked(header: WzHeader, meta: WzOffsetMeta)
    requires
        header.fstart * 2 <= usize::MAX,
    ensures
        spec_wz_offset_pkg1(header, meta) <= 0xFFFF_FFFF,
        (spec_wz_offset_pkg1(header, meta) as u32).wrapping_sub((2 * header.fstart) as u32)
            == spec_pkg1_offset_key(header, meta) ^ meta.encrypted_offset,
{
    let k = spec_pkg1_offset_key(header, meta);
    let e = meta.encrypted_offset;
    let o4 = k as usize;
    let o5 = (o4 ^ (e as usize)) & 0xFFFFFFFF;
    let s = (header.fstart * 2) as usize;
    let w = o5.wrapping_add(s);
    let r = w & 0xFFFFFFFF;
    assert(r == spec_wz_offset_pkg1(header, meta));
    assert(o5 == (k ^ e) as usize) by (bit_vector)
        requires
            o4 == k as usize,
            o5 == (o4 ^ (e as usize)) & 0xFFFFFFFF,
    ;
    assert(r <= 0xFFFF_FFFF && r as u32 as int == w as int % 0x1_0000_0000) by (bit_vector)
        requires
            r == w & 0xFFFFFFFF,
    ;
    assert(s as u32 as int == s as int % 0x1_0000_0000) by (bit_vector);
    assert(usize::MAX == 0xFFFF_FFFF || usize::MAX == 0xFFFF_FFFF_FFFF_FFFF);
    let m: int = 0x1_0000_0000;
    let t = (k ^ e) as int;
    assert(w as int % m == (t + s as int) % m) by {
        if t + s > usize::MAX {
            assert(w as int == t + s - (usize::MAX + 1));
            if usize::MAX == 0xFFFF_FFFF {
                vstd::arithmetic::div_mod::lemma_mod_sub_multiples_vanish(t + s, m);
            } else {
                assert(usize::MAX + 1 == m * 0x1_0000_0000);
                vstd::arithmetic::div_mod::lemma_mod_multiples_vanish(-0x1_0000_0000, t + s, m);
            }
        }
    }
    vstd::arithmetic::div_mod::lemma_add_mod_noop(t, s as int, m);
    vstd::arithmetic::div_mod::lemma_mod_bound(s as int, m);
}

/// PKG1 offsets that are stored at the same place with the same hash
/// differ, with twice the header size taken off, exactly as their encrypted
/// values do: the decryption xors with a key that does not depend on the
/// encrypted value.
pub proof fn law_pkg1_offset_xor(header: WzHeader, m1: WzOffsetMeta, m2: WzOffsetMeta)
    requires
        header.fstart * 2 <= usize::MAX,
        m1.hash == m2.hash,
        m1.offset == m2.offset,
    ensures
        spec_wz_offset_pkg1(header, m1) <= 0xFFFF_FFFF,
        spec_wz_offset_pkg1(header, m2) <= 0xFFFF_FFFF,
        (spec_wz_offset_pkg1(header, m1) as u32).wrapping_sub((2 * header.fstart) as u32)
            ^ (spec_wz_offset_pkg1(header, m2) as u32).wrapping_sub((2 * header.fstart) as u32)
            == m1.encrypted_offset ^ m2.encrypted_offset,
{
    lemma_pkg1_offset_unmasked(header, m1);
    lemma_pkg1_offset_unmasked(header, m2);
    let k = spec_pkg1_offset_key(header, m1);
    let e1 = m1.encrypted_offset;
    let e2 = m2.encrypted_offset;
    assert((k ^ e1) ^ (k ^ e2) == e1 ^ e2) by (bit_vector);
}

/// A header recognised as KMST1204 or KMST1205 is of the 64-bit layout, and
/// not both.
pub open spec fn header_revision_consistent(header: WzHeader) -> bool {
    &&& header.pkg2_1204 ==> header.pkg2_64
    &&& header.pkg2_1205 ==> header.pkg2_64
    &&& !(header.pkg2_1204 && header.pkg2_1205)
}

/// Which profiles of the table recognise a header: a header of the 64-bit
/// layout is recognised by exactly one profile, the KMST1205 profile for a
/// KMST1205 header, the KMST1204 profile for a KMST1204 header and the
/// KMST1202 profile otherwise; any other PKG2 header is recognised by every
/// 32-bit profile and by no 64-bit one.
pub proof fn law_profile_recognition(header: WzHeader, i: int)
    requires
        header_revision_consistent(header),
        0 <= i < spec_all_pkg2_profiles().len(),
    ensures
        header.pkg2_64 ==> (spec_matches_header(spec_all_pkg2_profiles()[i].name, header) <==> spec_all_pkg2_profiles()[i].name == (if header.pkg2_1205 {
            WzProfileVersion::Pkg2V1205
        } else if header.pkg2_1204 {
            WzProfileVersion::Pkg2V1204
        } else {
            WzProfileVersion::Pkg2V1202
        })),
        !header.pkg2_64 ==> (spec_matches_header(spec_all_pkg2_profiles()[i].name, header) <==> (header.ident
            == PKGVersion::V2 && !is_pkg2_64_version(spec_all_pkg2_profiles()[i].name))),
{
}

/// No header of consistent revision is recognised by two different profiles
/// of the 64-bit layout.
pub proof fn law_at_most_one_pkg2_64_profile(header: WzHeader, i: int, j: int)
    requires
        header_revision_consistent(header),
        0 <= i < spec_all_pkg2_profiles().len(),
        0 <= j < spec_all_pkg2_profiles().len(),
        is_pkg2_64_version(spec_all_pkg2_profiles()[i].name),
        is_pkg2_64_version(spec_all_pkg2_profiles()[j].name),
        spec_matches_header(spec_all_pkg2_profiles()[i].name, header),
        spec_matches_header(spec_all_pkg2_profiles()[j].name, header),
    ensures
        i == j,
{
    law_profile_recognition(header, i);
    law_profile_recognition(header, j);
    law_pkg2_profile_table(i, j);
}

} // verus!
