//! Profiles of the WZ format revisions: which string decryptor, hash-version
//! generator and offset scheme each revision uses, and what its header and
//! directory entries look like.

use vstd::prelude::*;
use crate::header::{PKGVersion, WzHeader};
use crate::offset::WzOffsetVersion;
use crate::string_decryptor::DecrypterType;
use crate::version::Pkg2VersionGen;

verus! {

/// A WZ format revision.
#[derive(Debug, Clone, Copy, PartialEq, Eq, Structural)]
pub enum WzProfileVersion {
    Pkg1,
    Pkg2V1205,
    Pkg2V1204,
    Pkg2V1202,
    Pkg2V1201,
    Pkg2V1200,
    Pkg2V1199,
    Pkg2V1198,
    Pkg2V1197,
    Pkg2V1196,
}

impl Default for WzProfileVersion {
    fn default() -> (r: Self)
        ensures
            r == WzProfileVersion::Pkg1,
    {
        WzProfileVersion::Pkg1
    }
}

/// The name of a revision, as it is displayed.
pub open spec fn spec_version_name(v: WzProfileVersion) -> Seq<char> {
    match v {
        WzProfileVersion::Pkg1 => "Pkg1"@,
        WzProfileVersion::Pkg2V1205 => "Pkg2V1205"@,
        WzProfileVersion::Pkg2V1204 => "Pkg2V1204"@,
        WzProfileVersion::Pkg2V1202 => "Pkg2V1202"@,
        WzProfileVersion::Pkg2V1201 => "Pkg2V1201"@,
        WzProfileVersion::Pkg2V1200 => "Pkg2V1200"@,
        WzProfileVersion::Pkg2V1199 => "Pkg2V1199"@,
        WzProfileVersion::Pkg2V1198 => "Pkg2V1198"@,
        WzProfileVersion::Pkg2V1197 => "Pkg2V1197"@,
        WzProfileVersion::Pkg2V1196 => "Pkg2V1196"@,
    }
}

impl WzProfileVersion {
    /// The name of the revision, as it is displayed.
    pub fn to_string(&self) -> (r: String)
        ensures
            r@ == spec_version_name(*self),
    {
        match self {
            WzProfileVersion::Pkg1 => "Pkg1".to_owned(),
            WzProfileVersion::Pkg2V1205 => "Pkg2V1205".to_owned(),
            WzProfileVersion::Pkg2V1204 => "Pkg2V1204".to_owned(),
            WzProfileVersion::Pkg2V1202 => "Pkg2V1202".to_owned(),
            WzProfileVersion::Pkg2V1201 => "Pkg2V1201".to_owned(),
            WzProfileVersion::Pkg2V1200 => "Pkg2V1200".to_owned(),
            WzProfileVersion::Pkg2V1199 => "Pkg2V1199".to_owned(),
            WzProfileVersion::Pkg2V1198 => "Pkg2V1198".to_owned(),
            WzProfileVersion::Pkg2V1197 => "Pkg2V1197".to_owned(),
            WzProfileVersion::Pkg2V1196 => "Pkg2V1196".to_owned(),
        }
    }
}

/// Where a PKG2 directory entry stores its name.
#[derive(Debug, Clone, Copy, PartialEq, Eq, Structural)]
pub enum Pkg2EntryNamePosition {
    BeforeData,
    AfterData,
}

impl Default for Pkg2EntryNamePosition {
    fn default() -> (r: Self)
        ensures
            r == Pkg2EntryNamePosition::BeforeData,
    {
        Pkg2EntryNamePosition::BeforeData
    }
}

/// A format revision with its decryptor, hash-version generator and offset
/// scheme.
#[derive(Debug, Clone, Copy)]
pub struct WzProfile {
    pub name: WzProfileVersion,
    pub decryptor_type: DecrypterType,
    pub version_gen: Pkg2VersionGen,
    pub offset_version: WzOffsetVersion,
}

impl Default for WzProfile {
    fn default() -> (r: Self)
        ensures
            r == (WzProfile {
                name: WzProfileVersion::Pkg1,
                decryptor_type: DecrypterType::Unknown,
                version_gen: Pkg2VersionGen::Unknown,
                offset_version: WzOffsetVersion::Pkg1,
            }),
    {
        Self {
            name: WzProfileVersion::Pkg1,
            decryptor_type: DecrypterType::Unknown,
            version_gen: Pkg2VersionGen::Unknown,
            offset_version: WzOffsetVersion::Pkg1,
        }
    }
}

/// The revisions of the 64-bit PKG2 layout.
pub open spec fn is_pkg2_64_version(v: WzProfileVersion) -> bool {
    v == WzProfileVersion::Pkg2V1202 || v == WzProfileVersion::Pkg2V1204 || v == WzProfileVersion::Pkg2V1205
}

/// The revisions that encrypt directory entry size/checksum fields and
/// decrypt every entry name with the PKG2 V2 key.
pub open spec fn is_entry_encrypting_version(v: WzProfileVersion) -> bool {
    v == WzProfileVersion::Pkg2V1204 || v == WzProfileVersion::Pkg2V1205
}

/// Whether a profile recognises a header.
pub open spec fn spec_matches_header(v: WzProfileVersion, header: WzHeader) -> bool {
    match v {
        WzProfileVersion::Pkg2V1205 => header.pkg2_1205,
        WzProfileVersion::Pkg2V1204 => header.pkg2_1204,
        WzProfileVersion::Pkg2V1202 => header.pkg2_64 && !header.pkg2_1204 && !header.pkg2_1205,
        _ => header.ident == PKGVersion::V2 && !header.pkg2_64,
    }
}

/// The check that confirms a hash version against a header's two hashes.
#[derive(Debug, Clone, Copy, PartialEq, Eq, Structural)]
pub enum HashVerifier {
    /// The 64-bit check of generator V6.
    V6 { hash1: u64, hash2: u64, hash: u64 },
    /// The 64-bit check of generator V7.
    V7 { hash1: u64, hash2: u64, hash: u64 },
    /// The 32-bit check of the given generator, on the low halves.
    Generator { version_gen: Pkg2VersionGen, hash1: u32, hash2: u32, hash: u32 },
}

impl WzProfile {
    pub fn should_be_pkg2_64(&self) -> (r: bool)
        ensures
            r == is_pkg2_64_version(self.name),
    {
        match self.name {
            WzProfileVersion::Pkg2V1202 | WzProfileVersion::Pkg2V1204 | WzProfileVersion::Pkg2V1205 => true,
            _ => false,
        }
    }

    /// Whether entry size/checksum fields are encrypted.
    pub fn encrypts_entry_data(&self) -> (r: bool)
        ensures
            r == is_entry_encrypting_version(self.name),
    {
        match self.name {
            WzProfileVersion::Pkg2V1204 | WzProfileVersion::Pkg2V1205 => true,
            _ => false,
        }
    }

    /// Whether every directory entry name uses the PKG2 V2 key, or only the first one.
    pub fn all_names_use_pkg2_v2(&self) -> (r: bool)
        ensures
            r == is_entry_encrypting_version(self.name),
    {
        match self.name {
            WzProfileVersion::Pkg2V1204 | WzProfileVersion::Pkg2V1205 => true,
            _ => false,
        }
    }

    /// KMST1205 stores entry names after the entry data, the others before.
    pub fn entry_name_position(&self) -> (r: Pkg2EntryNamePosition)
        ensures
            r == (if self.name == WzProfileVersion::Pkg2V1205 {
                Pkg2EntryNamePosition::AfterData
            } else {
                Pkg2EntryNamePosition::BeforeData
            }),
    {
        match self.name {
            WzProfileVersion::Pkg2V1205 => Pkg2EntryNamePosition::AfterData,
            _ => Pkg2EntryNamePosition::BeforeData,
        }
    }

    /// Whether this profile recognises the header: the 64-bit revisions by
    /// the header's own revision, the others by a PKG2 header of the 32-bit
    /// layout.
    pub fn matches_header(&self, header: &WzHeader) -> (r: bool)
        ensures
            r == spec_matches_header(self.name, *header),
    {
        match self.name {
            WzProfileVersion::Pkg2V1205 => header.is_pkg2_1205(),
            WzProfileVersion::Pkg2V1204 => header.is_pkg2_1204(),
            WzProfileVersion::Pkg2V1202 => {
                header.is_pkg2_64() && !header.is_pkg2_1204() && !header.is_pkg2_1205()
            },
            _ => header.ident == PKGVersion::V2 && !header.is_pkg2_64(),
        }
    }
}

pub open spec fn spec_profile(
    name: WzProfileVersion,
    decryptor_type: DecrypterType,
    version_gen: Pkg2VersionGen,
    offset_version: WzOffsetVersion,
) -> WzProfile {
    WzProfile { name, decryptor_type, version_gen, offset_version }
}

/// Every PKG2 profile, newest revision first.
pub open spec fn spec_all_pkg2_profiles() -> Seq<WzProfile> {
    seq![
        spec_profile(WzProfileVersion::Pkg2V1205, DecrypterType::KMST1205, Pkg2VersionGen::V7, WzOffsetVersion::Pkg2_64V2),
        spec_profile(WzProfileVersion::Pkg2V1204, DecrypterType::KMST1204, Pkg2VersionGen::V6, WzOffsetVersion::Pkg2_64V1),
        spec_profile(WzProfileVersion::Pkg2V1202, DecrypterType::KMST1202, Pkg2VersionGen::V6, WzOffsetVersion::Pkg2_64V1),
        spec_profile(WzProfileVersion::Pkg2V1201, DecrypterType::KMST1199, Pkg2VersionGen::V4, WzOffsetVersion::Pkg2V3),
        spec_profile(WzProfileVersion::Pkg2V1200, DecrypterType::KMST1199, Pkg2VersionGen::V5, WzOffsetVersion::Pkg2V3),
        spec_profile(WzProfileVersion::Pkg2V1199, DecrypterType::KMST1199, Pkg2VersionGen::V4, WzOffsetVersion::Pkg2V3),
        spec_profile(WzProfileVersion::Pkg2V1198, DecrypterType::KMST1198, Pkg2VersionGen::V3, WzOffsetVersion::Pkg2V2),
        spec_profile(WzProfileVersion::Pkg2V1197, DecrypterType::Unknown, Pkg2VersionGen::V2, WzOffsetVersion::Pkg2V1),
        spec_profile(WzProfileVersion::Pkg2V1196, DecrypterType::Unknown, Pkg2VersionGen::V1, WzOffsetVersion::Pkg2V1),
    ]
}

/// Every PKG2 profile, newest revision first.
pub fn get_all_pkg2_profiles() -> (r: Vec<WzProfile>)
    ensures
        r@ == spec_all_pkg2_profiles(),
{
    let mut r: Vec<WzProfile> = Vec::new();
    r.push(WzProfile {
        name: WzProfileVersion::Pkg2V1205,
        decryptor_type: DecrypterType::KMST1205,
        version_gen: Pkg2VersionGen::V7,
        offset_version: WzOffsetVersion::Pkg2_64V2,
    });
    r.push(WzProfile {
        name: WzProfileVersion::Pkg2V1204,
        decryptor_type: DecrypterType::KMST1204,
        version_gen: Pkg2VersionGen::V6,
        offset_version: WzOffsetVersion::Pkg2_64V1,
    });
    r.push(WzProfile {
        name: WzProfileVersion::Pkg2V1202,
        decryptor_type: DecrypterType::KMST1202,
        version_gen: Pkg2VersionGen::V6,
        offset_version: WzOffsetVersion::Pkg2_64V1,
    });
    r.push(WzProfile {
        name: WzProfileVersion::Pkg2V1201,
        decryptor_type: DecrypterType::KMST1199,
        version_gen: Pkg2VersionGen::V4,
        offset_version: WzOffsetVersion::Pkg2V3,
    });
    r.push(WzProfile {
        name: WzProfileVersion::Pkg2V1200,
        decryptor_type: DecrypterType::KMST1199,
        version_gen: Pkg2VersionGen::V5,
        offset_version: WzOffsetVersion::Pkg2V3,
    });
    r.push(WzProfile {
        name: WzProfileVersion::Pkg2V1199,
        decryptor_type: DecrypterType::KMST1199,
        version_gen: Pkg2VersionGen::V4,
        offset_version: WzOffsetVersion::Pkg2V3,
    });
    r.push(WzProfile {
        name: WzProfileVersion::Pkg2V1198,
        decryptor_type: DecrypterType::KMST1198,
        version_gen: Pkg2VersionGen::V3,
        offset_version: WzOffsetVersion::Pkg2V2,
    });
    r.push(WzProfile {
        name: WzProfileVersion::Pkg2V1197,
        decryptor_type: DecrypterType::Unknown,
        version_gen: Pkg2VersionGen::V2,
        offset_version: WzOffsetVersion::Pkg2V1,
    });
    r.push(WzProfile {
        name: WzProfileVersion::Pkg2V1196,
        decryptor_type: DecrypterType::Unknown,
        version_gen: Pkg2VersionGen::V1,
        offset_version: WzOffsetVersion::Pkg2V1,
    });
    proof {
        assert(r@ =~= spec_all_pkg2_profiles());
    }
    r
}

/// A PKG2 profile together with the hash version found for a file.
#[derive(Debug, Clone, Copy)]
pub struct Pkg2Profile {
    pub profile: WzProfile,
    pub hash: u64,
}

impl Pkg2Profile {
    pub fn new(profile: WzProfile, hash: u64) -> (r: Self)
        ensures
            r.profile == profile,
            r.hash == hash,
    {
        Self { profile, hash }
    }

    /// The check that confirms this profile's hash version against a
    /// header's two hashes: generators V6 and V7 check all 64 bits, the
    /// others the low 32 bits of each value.
    pub fn hash_verifier(&self, hash1: u64, hash2: u64) -> (r: HashVerifier)
        ensures
            r == (match self.profile.version_gen {
                Pkg2VersionGen::V6 => HashVerifier::V6 { hash1, hash2, hash: self.hash },
                Pkg2VersionGen::V7 => HashVerifier::V7 { hash1, hash2, hash: self.hash },
                _ => HashVerifier::Generator {
                    version_gen: self.profile.version_gen,
                    hash1: hash1 as u32,
                    hash2: hash2 as u32,
                    hash: self.hash as u32,
                },
            }),
    {
        match self.profile.version_gen {
            Pkg2VersionGen::V6 => HashVerifier::V6 { hash1, hash2, hash: self.hash },
            Pkg2VersionGen::V7 => HashVerifier::V7 { hash1, hash2, hash: self.hash },
            _ => HashVerifier::Generator {
                version_gen: self.profile.version_gen,
                hash1: hash1 as u32,
                hash2: hash2 as u32,
                hash: self.hash as u32,
            },
        }
    }
}

} // verus!
