use lib::pkg2_kmst1205::{
    compute_dir_entry_name_key, compute_directory_count_key, compute_entry_field_key,
    compute_hash2, compute_image_offset, compute_pkg2_hash_version, compute_shared_hash,
    kmst1205_hash_version_candidates, KMST1205_HASH_VERSION,
};

const HASH1: u64 = 0x0123_4567_89AB_CDEF;

#[test]
fn compute_pkg2_hash_version_yields_known_seed() {
    assert_eq!(
        compute_pkg2_hash_version("v410_260106_1_A1F3C9E2"),
        KMST1205_HASH_VERSION
    );
    assert_ne!(
        compute_pkg2_hash_version("v410_260106_1_A1F3C9E3"),
        KMST1205_HASH_VERSION
    );
}

#[test]
fn computes_shared_and_name_keys() {
    let hash_version = KMST1205_HASH_VERSION;
    assert_eq!(
        compute_shared_hash(HASH1, hash_version),
        0x5D5B_C539_CFB6_833A
    );
    assert_eq!(
        compute_dir_entry_name_key(HASH1, hash_version, 0),
        0x3EDE_499D_1F39_EBF1
    );
    assert_eq!(
        compute_dir_entry_name_key(HASH1, hash_version, 123),
        0x01AA_2681_3C6C_358D
    );
}

#[test]
fn hash_version_of_other_string() {
    assert_eq!(compute_pkg2_hash_version("v410_260106_1_A1F3C9E3"), 0x55E2_D9E9_7E95_DCE3);
}

#[test]
fn candidates_are_string_seeds_then_known_seed() {
    assert_eq!(
        kmst1205_hash_version_candidates(),
        vec![KMST1205_HASH_VERSION, KMST1205_HASH_VERSION]
    );
}

#[test]
fn computes_derived_keys() {
    assert_eq!(compute_hash2(HASH1, KMST1205_HASH_VERSION), 0xADB8_0ADC_B231_3266);
    assert_eq!(compute_directory_count_key(HASH1, KMST1205_HASH_VERSION), 0xD870_F4A4_BB42_A436);
    assert_eq!(compute_entry_field_key(HASH1, KMST1205_HASH_VERSION, 0x1234), 0xAE07_AE07);
    assert_eq!(
        compute_image_offset(HASH1, KMST1205_HASH_VERSION, 0x3C, 0x1000, 0xDEAD_BEEF),
        0x308A_60DD
    );
}
