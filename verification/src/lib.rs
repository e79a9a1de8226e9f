//! Key, hash and offset arithmetic for PKG1/PKG2 WZ archives: offset
//! decryption, directory entry count decryption, string key streams and the
//! KMST1205 hash primitives.

pub mod bits;
pub mod header;
pub mod pkg2_kmst1205;
pub mod string_decryptor;
pub mod pkg2_decryptor;
pub mod offset;
pub mod version;
pub mod profile;
pub mod laws;
pub mod key_laws;
