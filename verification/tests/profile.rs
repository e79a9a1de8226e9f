use lib::header::{PKGVersion, WzHeader};
use lib::offset::WzOffsetVersion;
use lib::profile::{
    get_all_pkg2_profiles, HashVerifier, Pkg2EntryNamePosition, Pkg2Profile, WzProfile,
    WzProfileVersion,
};
use lib::string_decryptor::DecrypterType;
use lib::version::Pkg2VersionGen;

fn header(ident: PKGVersion, pkg2_64: bool, pkg2_1204: bool, pkg2_1205: bool) -> WzHeader {
    WzHeader { ident, fstart: 0x3C, hash1: 1, pkg2_64, pkg2_1204, pkg2_1205 }
}

#[test]
fn profile_table() {
    let profiles = get_all_pkg2_profiles();
    assert_eq!(profiles.len(), 9);
    assert_eq!(profiles[0].name, WzProfileVersion::Pkg2V1205);
    assert_eq!(profiles[0].decryptor_type, DecrypterType::KMST1205);
    assert_eq!(profiles[0].offset_version, WzOffsetVersion::Pkg2_64V2);
    assert_eq!(profiles[8].name, WzProfileVersion::Pkg2V1196);
    assert_eq!(profiles[8].version_gen, Pkg2VersionGen::V1);
    assert_eq!(profiles[7].name, WzProfileVersion::Pkg2V1197);
    assert_eq!(profiles[7].offset_version, WzOffsetVersion::Pkg2V1);
    assert_eq!(profiles[6].offset_version, WzOffsetVersion::Pkg2V2);
    for p in &profiles {
        let has_count = matches!(p.offset_version, WzOffsetVersion::Pkg2_64V1 | WzOffsetVersion::Pkg2_64V2);
        assert_eq!(p.should_be_pkg2_64(), has_count);
        assert_eq!(p.encrypts_entry_data(), p.all_names_use_pkg2_v2());
    }
}

#[test]
fn profile_flags() {
    let profiles = get_all_pkg2_profiles();
    let p1205 = profiles[0];
    let p1202 = profiles[2];
    let p1198 = profiles[6];
    assert!(p1205.encrypts_entry_data());
    assert_eq!(p1205.entry_name_position(), Pkg2EntryNamePosition::AfterData);
    assert!(p1202.should_be_pkg2_64());
    assert!(!p1202.encrypts_entry_data());
    assert_eq!(p1202.entry_name_position(), Pkg2EntryNamePosition::BeforeData);
    assert!(!p1198.should_be_pkg2_64());
    let d = WzProfile::default();
    assert_eq!(d.name, WzProfileVersion::Pkg1);
    assert_eq!(d.decryptor_type, DecrypterType::Unknown);
    assert_eq!(WzProfileVersion::default(), WzProfileVersion::Pkg1);
    assert_eq!(Pkg2EntryNamePosition::default(), Pkg2EntryNamePosition::BeforeData);
}

#[test]
fn profiles_match_headers() {
    let profiles = get_all_pkg2_profiles();
    let h1205 = header(PKGVersion::V2, true, false, true);
    let h1202 = header(PKGVersion::V2, true, false, false);
    let h32 = header(PKGVersion::V2, false, false, false);
    let hpkg1 = header(PKGVersion::V1, false, false, false);
    assert!(profiles[0].matches_header(&h1205));
    assert!(!profiles[1].matches_header(&h1205));
    assert!(!profiles[2].matches_header(&h1205));
    assert!(profiles[2].matches_header(&h1202));
    assert!(!profiles[3].matches_header(&h1202));
    assert!(profiles[3].matches_header(&h32));
    assert!(!profiles[3].matches_header(&hpkg1));
}

#[test]
fn version_names() {
    assert_eq!(WzProfileVersion::Pkg2V1205.to_string(), "Pkg2V1205");
    assert_eq!(WzProfileVersion::Pkg1.to_string(), "Pkg1");
}

#[test]
fn hash_verifiers() {
    let profiles = get_all_pkg2_profiles();
    let p = Pkg2Profile::new(profiles[0], 0x1_0000_0002);
    assert_eq!(p.hash, 0x1_0000_0002);
    assert_eq!(
        p.hash_verifier(3, 4),
        HashVerifier::V7 { hash1: 3, hash2: 4, hash: 0x1_0000_0002 }
    );
    let p = Pkg2Profile::new(profiles[8], 0x1_0000_0002);
    assert_eq!(
        p.hash_verifier(0x5_0000_0003, 4),
        HashVerifier::Generator { version_gen: Pkg2VersionGen::V1, hash1: 3, hash2: 4, hash: 2 }
    );
}
