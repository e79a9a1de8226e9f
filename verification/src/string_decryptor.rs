//! The kinds of string decryptor that the WZ format revisions use.

use vstd::prelude::*;

verus! {

/// Which client revision's string decryption scheme is in use.
#[derive(Debug, Clone, Copy, PartialEq, Eq, Structural)]
pub enum DecrypterType {
    Unknown,
    KMST1198,
    KMST1199,
    KMST1202,
    KMST1204,
    KMST1205,
}

/// The schemes whose string key depends on the position in the file.
pub open spec fn is_position_dependent(t: DecrypterType) -> bool {
    t == DecrypterType::KMST1204 || t == DecrypterType::KMST1205
}

} // verus!
