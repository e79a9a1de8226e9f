# lib

Verified key, hash and offset arithmetic for PKG1/PKG2 WZ archives.

- `src/bits.rs`: rotations and little-endian bytes, with their spec functions.
- `src/header.rs`: the header fields that the arithmetic reads; the entry count error.
- `src/offset.rs`: offset decryption of every scheme, entry count and entry field decryption.
- `src/pkg2_decryptor.rs`, `src/string_decryptor.rs`: the PKG2 string decryptor and its key derivations.
- `src/pkg2_kmst1205.rs`: the KMST1205 hash primitives.
- `src/profile.rs`, `src/version.rs`: the table of format revisions.
- `src/laws.rs`: proofs that relate several of the above.
- `app/lib.rs`: the process-wide cache of recognised profiles.
