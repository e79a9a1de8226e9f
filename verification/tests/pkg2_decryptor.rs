use lib::pkg2_decryptor::{
    gen_pkg2_keys, get_kmst1199_key, get_kmst1202_key, get_kmst1204_key, get_kmst1205_key,
    mix_kmst1205, Pkg2Decryptor,
};
use lib::pkg2_kmst1205::{compute_dir_entry_name_key, compute_shared_hash};
use lib::string_decryptor::DecrypterType;

const HASH1: u64 = 0x0123_4567_89AB_CDEF;
const HASH_VERSION: u64 = 0x8F08_109B_6A61_D954;

#[test]
fn test_pkg2_decryptor_u32() {
    let key = 0xDEADBEEF_u32;
    let decryptor = Pkg2Decryptor::new_with_key(key as u64, DecrypterType::KMST1198);
    let mut decrypted = b"Hello, world!".to_vec();
    decryptor.decrypt_slice(&mut decrypted);
    decryptor.decrypt_slice(&mut decrypted);
    assert_eq!(decrypted, b"Hello, world!");

    let mut decrypted2 = "你好世界".bytes().collect::<Vec<_>>();

    decryptor.decrypt_slice(&mut decrypted2);
    decryptor.decrypt_slice(&mut decrypted2);
    assert_eq!(decrypted2, "你好世界".bytes().collect::<Vec<_>>());
}

#[test]
fn test_pkg2_decryptor_u64() {
    let key = 0xDEADBEEFDEADBEEF;
    let decryptor = Pkg2Decryptor::new_with_key(key, DecrypterType::KMST1198);
    let mut decrypted = b"Hello, world!".to_vec();
    decryptor.decrypt_slice(&mut decrypted);
    decryptor.decrypt_slice(&mut decrypted);
    assert_eq!(decrypted, b"Hello, world!");
}

#[test]
fn test_kmst1205_mix_and_position_keys() {
    let hash1 = 0x0123_4567_89AB_CDEF;
    let hash_version = 0x8F08_109B_6A61_D954;

    assert_eq!(mix_kmst1205(hash_version, hash1), 0x5D5B_C539_CFB6_833A);
    assert_eq!(
        get_kmst1205_key(hash1, hash_version, 0),
        0x3EDE_499D_1F39_EBF1
    );
    assert_eq!(
        get_kmst1205_key(hash1, hash_version, 123),
        0x01AA_2681_3C6C_358D
    );
}

#[test]
fn gen_pkg2_keys_repeats_middle_bytes() {
    assert_eq!(gen_pkg2_keys(0x0807_0605_0403_0201), [1, 2, 2, 3, 3, 4, 4, 5]);
    assert_eq!(gen_pkg2_keys(0xDEADBEEF), [0xEF, 0xBE, 0xBE, 0xAD, 0xAD, 0xDE, 0xDE, 0x00]);
}

#[test]
fn decrypt_slice_xors_with_key_stream() {
    let decryptor = Pkg2Decryptor::new_with_key(0x0807_0605_0403_0201, DecrypterType::KMST1198);
    let mut data = vec![0u8; 10];
    decryptor.decrypt_slice(&mut data);
    assert_eq!(data, vec![1, 2, 2, 3, 3, 4, 4, 5, 1, 2]);
    assert_eq!(decryptor.get_iv_hash(), 0x0807_0605_0403_0201);
    assert_eq!(decryptor.get_enc_type(), DecrypterType::KMST1198);
    assert!(decryptor.is_pkg2());
    assert!(decryptor.is_enough(1 << 20));
    assert_eq!(decryptor.try_at(9), Some(&2));
}

#[test]
fn decrypt_slice_of_empty_data() {
    let decryptor = Pkg2Decryptor::new_with_key(0x1234, DecrypterType::KMST1199);
    let mut data: Vec<u8> = Vec::new();
    decryptor.decrypt_slice(&mut data);
    assert!(data.is_empty());
}

#[test]
fn at_and_ensure_key_size() {
    let mut decryptor = Pkg2Decryptor::new_with_key(0x0807_0605_0403_0201, DecrypterType::KMST1198);
    assert_eq!(*decryptor.at(0), 1);
    assert_eq!(*decryptor.at(15), 5);
    assert_eq!(decryptor.ensure_key_size(100), Ok(()));
}

#[test]
fn position_dependent_decryptor_keeps_zero_stream_until_key_material() {
    let decryptor = Pkg2Decryptor::new_with_key(0xFFFF_FFFF, DecrypterType::KMST1205);
    let mut data = vec![7u8; 4];
    decryptor.decrypt_slice(&mut data);
    assert_eq!(data, vec![7u8; 4]);
    assert_eq!(decryptor.get_iv_hash(), 0);
}

#[test]
fn key_material_of_each_scheme() {
    let mut d = Pkg2Decryptor::new_with_key(0, DecrypterType::Unknown);
    d.set_key_material(HASH1, HASH_VERSION, DecrypterType::KMST1202);
    assert_eq!(d.get_iv_hash(), 0xE89E_2A12_D2B5_C764);
    assert_eq!(get_kmst1202_key(HASH1, HASH_VERSION), 0xE89E_2A12_D2B5_C764);

    d.set_key_material(HASH1, HASH_VERSION, DecrypterType::KMST1199);
    assert_eq!(d.get_iv_hash(), 0xB245_09BD);
    assert_eq!(get_kmst1199_key(HASH1 as u32, HASH_VERSION as u32), 0xB245_09BD);

    d.set_key_material(HASH1, HASH_VERSION, DecrypterType::KMST1198);
    assert_eq!(d.get_iv_hash(), HASH_VERSION);

    d.set_key_material(HASH1, HASH_VERSION, DecrypterType::KMST1204);
    assert_eq!(d.get_iv_hash(), 0xAFAA_5A99_1D09_3F67);
    assert_eq!(get_kmst1204_key(HASH1, HASH_VERSION, 0), 0xAFAA_5A99_1D09_3F67);
    assert_eq!(get_kmst1204_key(HASH1, HASH_VERSION, 123), 0xAB0D_26B9_35C0_A170);
    d.apply_file_position(123);
    assert_eq!(d.get_iv_hash(), 0xAB0D_26B9_35C0_A170);

    d.set_key_material(HASH1, HASH_VERSION, DecrypterType::KMST1205);
    assert_eq!(d.get_iv_hash(), 0x3EDE_499D_1F39_EBF1);
}

#[test]
fn apply_file_position_leaves_fixed_schemes_alone() {
    let mut d = Pkg2Decryptor::new_with_key(0xABCD, DecrypterType::KMST1198);
    d.apply_file_position(77);
    assert_eq!(d.get_iv_hash(), 0xABCD);
}

#[test]
fn set_iv_skips_position_dependent_schemes() {
    let mut d = Pkg2Decryptor::new_with_key(0x11, DecrypterType::KMST1198);
    d.set_iv(0x22, DecrypterType::KMST1204);
    assert_eq!(d.get_iv_hash(), 0x11);
    assert_eq!(d.get_enc_type(), DecrypterType::KMST1204);
    d.set_iv(0x33, DecrypterType::KMST1199);
    assert_eq!(d.get_iv_hash(), 0x33);
}

#[test]
fn decrypt_with_offset_matches_positioned_decrypt() {
    let mut d = Pkg2Decryptor::new_with_key(0, DecrypterType::Unknown);
    d.set_key_material(HASH1, HASH_VERSION, DecrypterType::KMST1205);
    let original = b"directory/entry.img".to_vec();

    let mut with_offset = original.clone();
    d.decrypt_slice_with_offset(&mut with_offset, 123);

    let mut positioned = original.clone();
    d.apply_file_position(123);
    d.decrypt_slice(&mut positioned);
    assert_eq!(with_offset, positioned);
    assert_ne!(with_offset, original);

    let keys = gen_pkg2_keys(get_kmst1205_key(HASH1, HASH_VERSION, 123));
    let expected: Vec<u8> = original.iter().enumerate().map(|(i, b)| b ^ keys[i % 8]).collect();
    assert_eq!(with_offset, expected);

    d.decrypt_slice_with_offset(&mut with_offset, 123);
    assert_eq!(with_offset, original);
}

#[test]
fn decrypt_with_offset_ignores_offset_for_fixed_schemes() {
    let d = Pkg2Decryptor::new_with_key(0xDEADBEEF, DecrypterType::KMST1198);
    let mut a = b"abcdefghij".to_vec();
    let mut b = a.clone();
    d.decrypt_slice_with_offset(&mut a, 999);
    d.decrypt_slice(&mut b);
    assert_eq!(a, b);
}

#[test]
fn mixer_and_name_key_agree_with_hash_primitives() {
    assert_eq!(mix_kmst1205(HASH_VERSION, HASH1), compute_shared_hash(HASH1, HASH_VERSION));
    for pos in [0u64, 1, 123, 0xFFFF_FFFF_FFFF_FFFF] {
        assert_eq!(
            get_kmst1205_key(HASH1, HASH_VERSION, pos),
            compute_dir_entry_name_key(HASH1, HASH_VERSION, pos)
        );
    }
}

#[test]
fn key_stream_follows_iv() {
    let d = Pkg2Decryptor::new_with_key(0x1122_3344_5566_7788, DecrypterType::KMST1199);
    let keys = gen_pkg2_keys(d.get_iv_hash());
    let mut data = b"some entry name".to_vec();
    let original = data.clone();
    d.decrypt_slice(&mut data);
    for i in 0..data.len() {
        assert_eq!(data[i], original[i] ^ keys[i % 8]);
        assert_eq!(data[i], original[i] ^ *d.try_at(i).unwrap());
    }
}
