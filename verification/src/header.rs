//! What the key and offset arithmetic reads of a WZ file header, and the
//! error types that the offset and entry count decoders report.

use vstd::prelude::*;

verus! {

/// Package format named in the header's identifier.
#[derive(Debug, Clone, Copy, PartialEq, Eq, Structural)]
pub enum PKGVersion {
    V1,
    V2,
}

/// The header fields that the offset and profile logic reads: the format,
/// the start of the data section (`fstart`), the file's `hash1`, and which
/// PKG2 revision the header was recognised as.
#[derive(Debug, Clone, Copy)]
pub struct WzHeader {
    pub ident: PKGVersion,
    pub fstart: usize,
    pub hash1: u64,
    pub pkg2_64: bool,
    pub pkg2_1204: bool,
    pub pkg2_1205: bool,
}

impl WzHeader {
    /// The low 32 bits of `hash1`.
    pub fn hash1_u32(&self) -> (r: u32)
        ensures
            r == self.hash1 as u32,
    {
        self.hash1 as u32
    }

    /// Whether the header uses the 64-bit PKG2 layout (KMST1202 and later).
    pub fn is_pkg2_64(&self) -> (r: bool)
        ensures
            r == self.pkg2_64,
    {
        self.pkg2_64
    }

    /// Whether the header was recognised as KMST1204.
    pub fn is_pkg2_1204(&self) -> (r: bool)
        ensures
            r == self.pkg2_1204,
    {
        self.pkg2_1204
    }

    /// Whether the header was recognised as KMST1205.
    pub fn is_pkg2_1205(&self) -> (r: bool)
        ensures
            r == self.pkg2_1205,
    {
        self.pkg2_1205
    }
}

/// Error of the directory entry count decoders.
#[derive(Debug, Clone, Copy, PartialEq, Eq, Structural)]
pub enum DirectoryError {
    /// The decoded entry count does not fit in an `i32`.
    InvalidEntryCount,
}

} // verus!
