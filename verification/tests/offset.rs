use lib::header::{DirectoryError, PKGVersion, WzHeader};
use lib::offset::{
    calc_pkg2_64_v1_length, calc_pkg2_64_v1_shared_key, calc_pkg2_64_v2_length,
    decrypt_pkg2_entry_count_64_v1, decrypt_pkg2_entry_count_64_v2, read_wz_offset,
    read_wz_offset_pkg2, read_wz_offset_pkg2_64_v1, read_wz_offset_pkg2_64_v2,
    read_wz_offset_pkg2_v2, read_wz_offset_pkg2_v3, EntryCountCalculator, OffsetCalculator,
    WzOffsetMeta, WzOffsetVersion,
};
use lib::pkg2_kmst1205::{compute_directory_count_key, compute_entry_field_key, compute_image_offset};

const HASH1: u64 = 0x0123_4567_89AB_CDEF;
const HASH_VERSION: u64 = 0x8F08_109B_6A61_D954;

fn header() -> WzHeader {
    WzHeader {
        ident: PKGVersion::V2,
        fstart: 0x3C,
        hash1: HASH1,
        pkg2_64: true,
        pkg2_1204: false,
        pkg2_1205: true,
    }
}

fn meta(hash: u64) -> WzOffsetMeta {
    WzOffsetMeta { hash, encrypted_offset: 0xCAFE_BABE, offset: 0x2000 }
}

#[test]
fn offsets_of_each_scheme() {
    let h = header();
    let m = meta(0x1234_5678_90AB_CDEF);
    assert_eq!(read_wz_offset(&h, &m), 0x74A8_12B3);
    assert_eq!(read_wz_offset_pkg2(&h, &m), 0xBD28_5135);
    assert_eq!(read_wz_offset_pkg2_v2(&h, &m), 0xAD8A_3979);
    assert_eq!(read_wz_offset_pkg2_v3(&h, &m), 0x1B11_A31B);
    let m = meta(HASH_VERSION);
    assert_eq!(read_wz_offset_pkg2_64_v1(&h, &m), 0xCF17_D9A2);
    assert_eq!(read_wz_offset_pkg2_64_v2(&h, &m), 0xF255_A52D);
}

#[test]
fn calculators_dispatch_by_version() {
    let h = header();
    let m = meta(0x1234_5678_90AB_CDEF);
    assert_eq!(WzOffsetVersion::Pkg1.get_calculator(), OffsetCalculator::ReadWzOffset);
    assert_eq!(WzOffsetVersion::Pkg1.get_calculator().calculate(&h, &m), read_wz_offset(&h, &m));
    assert_eq!(WzOffsetVersion::Pkg2V3.get_calculator().calculate(&h, &m), read_wz_offset_pkg2_v3(&h, &m));
    assert_eq!(
        WzOffsetVersion::Pkg2_64V2.get_calculator().calculate(&h, &m),
        read_wz_offset_pkg2_64_v2(&h, &m)
    );
    assert_eq!(
        WzOffsetVersion::Pkg2_64V1.get_entry_count_calculator(),
        EntryCountCalculator::DecryptPkg2EntryCount64V1
    );
    assert_eq!(
        WzOffsetVersion::Pkg2_64V2.get_entry_count_calculator().calculate(&h, HASH_VERSION, 0),
        decrypt_pkg2_entry_count_64_v2(&h, HASH_VERSION, 0)
    );
    assert_eq!(WzOffsetVersion::default(), WzOffsetVersion::Pkg1);
}

#[test]
fn entry_field_lengths() {
    let h = header();
    assert_eq!(calc_pkg2_64_v1_shared_key(&h, HASH_VERSION, 0x2000), 0xFA16_9C27);
    assert_eq!(calc_pkg2_64_v1_length(&h, HASH_VERSION, 0x2000, 12345), -99177442);
    assert_eq!(calc_pkg2_64_v2_length(&h, HASH_VERSION, 0x2000, 12345), -1132426055);
    let once = calc_pkg2_64_v1_length(&h, HASH_VERSION, 0x2000, 12345);
    assert_eq!(calc_pkg2_64_v1_length(&h, HASH_VERSION, 0x2000, once), 12345);
    let once = calc_pkg2_64_v2_length(&h, HASH_VERSION, 0x2000, 12345);
    assert_eq!(calc_pkg2_64_v2_length(&h, HASH_VERSION, 0x2000, once), 12345);
}

#[test]
fn v2_offset_and_fields_use_kmst1205_primitives() {
    let h = header();
    let m = meta(HASH_VERSION);
    assert_eq!(
        read_wz_offset_pkg2_64_v2(&h, &m),
        compute_image_offset(HASH1, HASH_VERSION, 0x3C, 0x2000, 0xCAFE_BABE) as usize
    );
    let key = compute_entry_field_key(HASH1, HASH_VERSION, 0x2000 - 0x3C);
    assert_eq!(calc_pkg2_64_v2_length(&h, HASH_VERSION, 0x2000, 0), key as i32);
    let count_key = compute_directory_count_key(HASH1, HASH_VERSION);
    let encrypted = ((7u64 << 16) ^ count_key) as i64;
    assert_eq!(decrypt_pkg2_entry_count_64_v2(&h, HASH_VERSION, encrypted), Ok(7));
}

#[test]
fn entry_counts() {
    let h = header();
    assert_eq!(decrypt_pkg2_entry_count_64_v1(&h, HASH_VERSION, -2655556830569464745), Ok(5));
    assert_eq!(
        decrypt_pkg2_entry_count_64_v1(&h, HASH_VERSION, -2655697568057623465),
        Err(DirectoryError::InvalidEntryCount)
    );
    assert_eq!(
        decrypt_pkg2_entry_count_64_v1(&h, HASH_VERSION, 0),
        Ok((-40520581521138i64) as usize)
    );
    assert_eq!(decrypt_pkg2_entry_count_64_v2(&h, HASH_VERSION, -2850509575771806666), Ok(7));
    assert_eq!(
        decrypt_pkg2_entry_count_64_v2(&h, HASH_VERSION, -2850650313260358602),
        Err(DirectoryError::InvalidEntryCount)
    );
    assert_eq!(
        EntryCountCalculator::DecryptPkg2EntryCount64V1.calculate(&h, HASH_VERSION, -2655556830569464745),
        Ok(5)
    );
}

#[test]
fn meta_and_header_halves() {
    let m = meta(0x1234_5678_90AB_CDEF);
    assert_eq!(m.hash_u32(), 0x90AB_CDEF);
    assert_eq!(header().hash1_u32(), 0x89AB_CDEF);
    let d = WzOffsetMeta::default();
    assert_eq!((d.hash, d.encrypted_offset, d.offset), (0, 0, 0));
}

#[test]
fn pkg1_offsets_differ_as_encrypted_values() {
    let h = header();
    let m1 = WzOffsetMeta { hash: 0x1234_5678_90AB_CDEF, encrypted_offset: 0xCAFE_BABE, offset: 0x2000 };
    let m2 = WzOffsetMeta { encrypted_offset: 0x0102_0304, ..m1 };
    let r1 = read_wz_offset(&h, &m1);
    let r2 = read_wz_offset(&h, &m2);
    assert!(r1 <= 0xFFFF_FFFF && r2 <= 0xFFFF_FFFF);
    let s = (2 * h.fstart) as u32;
    assert_eq!((r1 as u32).wrapping_sub(s) ^ (r2 as u32).wrapping_sub(s), 0xCAFE_BABE ^ 0x0102_0304);
}
