//! The hash-version generators of the PKG2 revisions.

use vstd::prelude::*;

verus! {

/// Which generator produces the hash-version candidates of a PKG2 revision.
#[derive(Debug, Clone, Copy, PartialEq, Eq, Structural)]
pub enum Pkg2VersionGen {
    Unknown,
    V1,
    V2,
    V3,
    V4,
    V5,
    V6,
    V7,
}

} // verus!
