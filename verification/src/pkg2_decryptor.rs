//! The PKG2 string decryptor: an 8-byte key stream derived from a 64-bit
//! key, and the key derivations of the KMST1199 to KMST1205 revisions.

use vstd::prelude::*;
use crate::bits::{lemma_shr_is_div_u64, le_byte, rotl64, rotr64, rotate_left_u64, rotate_right_u64};
use crate::string_decryptor::{DecrypterType, is_position_dependent};

verus! {

/// The 8-byte key stream of a 64-bit key: little-endian bytes
/// 0, 1, 1, 2, 2, 3, 3, 4 of the key.
pub open spec fn spec_pkg2_keys(key: u64) -> Seq<u8> {
    seq![
        le_byte(key, 0),
        le_byte(key, 1),
        le_byte(key, 1),
        le_byte(key, 2),
        le_byte(key, 2),
        le_byte(key, 3),
        le_byte(key, 3),
        le_byte(key, 4),
    ]
}

/// `data` with byte `i` xor-ed with `keys[i % 8]`.
pub open spec fn xor_keystream(data: Seq<u8>, keys: Seq<u8>) -> Seq<u8> {
    Seq::new(data.len(), |i: int| data[i] ^ keys[i % 8])
}

/// The 32-bit finaliser used by KMST1199.
pub open spec fn spec_mix_kmst1199(key: u32) -> u32 {
    let k1 = key ^ (key >> 16u32);
    let k2 = k1.wrapping_mul(0x7FEB352D);
    let k3 = k2 ^ (k2 >> 15u32);
    let k4 = k3.wrapping_mul(0x846CA68B);
    k4 ^ (k4 >> 16u32)
}

pub open spec fn spec_kmst1199_key(hash1: u32, hash_version: u32) -> u32 {
    spec_mix_kmst1199(spec_mix_kmst1199(hash1 ^ hash_version ^ 0x6D4C3B2A) ^ 0x4F4CB34A)
}

pub open spec fn spec_kmst1202_key(hash1: u64, hash_version: u64) -> u64 {
    hash1 ^ hash_version ^ 0x66B57FEE317FD3DF
}

pub open spec fn spec_kmst1204_key(hash1: u64, hash_version: u64, file_position: u64) -> u64 {
    hash1 ^ hash_version ^ 0x21810F65FEC32BDCu64 ^ 0x9E3779B97F4A7C15u64.wrapping_mul(file_position)
}

/// The KMST1205 64-bit mixer of a hash version and `hash1`.
#[verifier::opaque]
pub open spec fn spec_mix_kmst1205(hash_version: u64, hash1: u64) -> u64 {
    let v2 = rotl64(hash1 ^ 0x81B4_A012_24AA_B10C, 31);
    let t1 = 0xFF51_AFD7_ED55_8CCDu64.wrapping_mul(v2 ^ (v2 >> 33u32));
    let v3a = 0xC4CE_B9FE_1A85_EC53u64.wrapping_mul(t1 ^ (t1 >> 29u32));
    let v3 = v3a ^ (v3a >> 32u32);
    let a = hash_version.wrapping_sub(0x2E4A_B5CD_2E6D_12FD);
    let t2 = a ^ 0x84CA_A73B_2BB7_0682;
    let v4 = rotr64(0xBF58_476D_1CE4_E5B9u64.wrapping_mul(t2 ^ (t2 >> 30u32)), 27);
    let v5x = 0x94D0_49BB_1331_11EBu64.wrapping_mul(v4 ^ (v4 >> 27u32));
    let v5 = v5x ^ (v5x >> 31u32);
    let v6 = v5.wrapping_add(0x510E_527F_ADE6_82D1);
    let v7 = rotl64(v5, 17);
    let tmp = v3.wrapping_add(v6);
    let v8 = 0x9FB2_1C65_1E98_DF25u64.wrapping_mul(tmp ^ rotr64(tmp, 25) ^ rotr64(tmp, 47));
    let f = v3 ^ v8 ^ v7 ^ (v8 >> 28u32);
    let fx = 0x94D0_49BB_1331_11EBu64.wrapping_mul(f ^ (f >> 29u32));
    fx ^ (fx >> 32u32)
}

/// The KMST1205 position-dependent string key.
pub open spec fn spec_kmst1205_key(hash1: u64, hash_version: u64, file_position: u64) -> u64 {
    let mixed = spec_mix_kmst1205(hash_version, hash1);
    let mul1 = 0xD1B5_4A32_D192_ED03u64.wrapping_mul(file_position);
    let v43 = mul1 ^ rotl64(mul1, 32);
    let t1 = v43 ^ mixed ^ 0x6A09_E667_F3BC_C908;
    let v44 = 0x2545_F491_4F6C_DD1Du64.wrapping_mul(t1 ^ rotl64(t1, 23) ^ rotl64(t1, 41));
    let sum1 = v43.wrapping_add(mixed).wrapping_add(0x510E_527F_ADE6_82D1);
    let v45 = 0x9FB2_1C65_1E98_DF25u64.wrapping_mul(sum1 ^ rotr64(sum1, 25) ^ rotr64(sum1, 47));
    let t2 = 0xBF58_476D_1CE4_E5B9u64.wrapping_mul(v44 ^ ((v44 >> 32u32) as u32 as u64));
    let inner = v45 ^ t2 ^ (t2 >> 29u32) ^ (v45 >> 28u32);
    let v46 = rotl64(inner, (v43 & 0x3F) as u32);
    v46 ^ (v46 >> 29u32)
}

/// The state of a `Pkg2Decryptor`.
pub struct DecryptorState {
    pub iv: u64,
    pub enc_type: DecrypterType,
    pub keys: Seq<u8>,
    pub hash1: u64,
    pub hash_version: u64,
}

impl DecryptorState {
    /// The state after the key stream was derived from `key`.
    pub open spec fn with_key(self, key: u64) -> DecryptorState {
        DecryptorState { iv: key, keys: spec_pkg2_keys(key), ..self }
    }

    /// The key of a position-dependent scheme at `file_position`.
    pub open spec fn position_key(self, file_position: u64) -> Option<u64> {
        if self.enc_type == DecrypterType::KMST1204 {
            Some(spec_kmst1204_key(self.hash1, self.hash_version, file_position))
        } else if self.enc_type == DecrypterType::KMST1205 {
            Some(spec_kmst1205_key(self.hash1, self.hash_version, file_position))
        } else {
            None
        }
    }

    /// The state after moving to `file_position`: position-dependent schemes
    /// derive a new key stream, the others keep theirs.
    pub open spec fn at_position(self, file_position: u64) -> DecryptorState {
        match self.position_key(file_position) {
            Some(k) => self.with_key(k),
            None => self,
        }
    }

    /// The key stream used for data at `offset`.
    pub open spec fn keys_at(self, offset: u64) -> Seq<u8> {
        match self.position_key(offset) {
            Some(k) => spec_pkg2_keys(k),
            None => self.keys,
        }
    }

    /// The state after `set_iv(key, enc_type)`.
    pub open spec fn after_set_iv(self, key: u64, enc_type: DecrypterType) -> DecryptorState {
        let s = DecryptorState { enc_type, ..self };
        if is_position_dependent(enc_type) {
            s
        } else {
            s.with_key(key)
        }
    }

    /// The state after `set_key_material(hash1, hash_version, enc_type)`.
    pub open spec fn after_key_material(self, hash1: u64, hash_version: u64, enc_type: DecrypterType) -> DecryptorState {
        let s = DecryptorState { enc_type, hash1, hash_version, ..self };
        if is_position_dependent(enc_type) {
            s.at_position(0)
        } else if enc_type == DecrypterType::KMST1202 {
            s.with_key(spec_kmst1202_key(hash1, hash_version))
        } else if enc_type == DecrypterType::KMST1199 {
            s.with_key(spec_kmst1199_key(hash1 as u32, hash_version as u32) as u64)
        } else {
            s.with_key(hash_version)
        }
    }
}

/// The string decryptor of PKG2 archives.
#[derive(Debug)]
pub struct Pkg2Decryptor {
    iv: u64,
    enc_type: DecrypterType,
    keys: [u8; 8],
    /// KMST1204/1205: position-dependent key material
    hash1: u64,
    hash_version: u64,
}

impl View for Pkg2Decryptor {
    type V = DecryptorState;

    closed spec fn view(&self) -> DecryptorState {
        DecryptorState {
            iv: self.iv,
            enc_type: self.enc_type,
            keys: self.keys@,
            hash1: self.hash1,
            hash_version: self.hash_version,
        }
    }
}

impl Pkg2Decryptor {
    /// The key stream is always the one derived from the current key.
    #[verifier::type_invariant]
    spec fn keys_follow_iv(self) -> bool {
        self.keys@ == spec_pkg2_keys(self.iv)
    }
}

impl Default for Pkg2Decryptor {
    fn default() -> (r: Self)
        ensures
            r@ == (DecryptorState {
                iv: 0,
                enc_type: DecrypterType::KMST1199,
                keys: seq![0u8, 0u8, 0u8, 0u8, 0u8, 0u8, 0u8, 0u8],
                hash1: 0,
                hash_version: 0,
            }),
    {
        let keys: [u8; 8] = [0; 8];
        proof {
            assert((0u64 >> 0u64) & 0xff == 0 && (0u64 >> 8u64) & 0xff == 0 && (0u64 >> 16u64) & 0xff == 0
                && (0u64 >> 24u64) & 0xff == 0 && (0u64 >> 32u64) & 0xff == 0) by (bit_vector);
            assert(keys@ =~= spec_pkg2_keys(0));
        }
        let r = Self { iv: 0, enc_type: DecrypterType::KMST1199, keys, hash1: 0, hash_version: 0 };
        proof {
            assert(r.keys@ =~= seq![0u8, 0u8, 0u8, 0u8, 0u8, 0u8, 0u8, 0u8]);
        }
        r
    }
}

impl Pkg2Decryptor {
    /// A decryptor of the given scheme whose key stream is derived from
    /// `key` (position-dependent schemes keep the all-zero stream until key
    /// material is set).
    pub fn new_with_key(key: u64, enc_type: DecrypterType) -> (r: Self)
        ensures
            r@ == (DecryptorState {
                iv: 0,
                enc_type: DecrypterType::KMST1199,
                keys: seq![0u8, 0u8, 0u8, 0u8, 0u8, 0u8, 0u8, 0u8],
                hash1: 0,
                hash_version: 0,
            }).after_set_iv(key, enc_type),
    {
        let mut decryptor: Pkg2Decryptor = Self::default();
        decryptor.set_iv(key, enc_type);
        decryptor
    }

    fn calculate_keys(&mut self, key: u64)
        ensures
            final(self)@ == old(self)@.with_key(key),
    {
        let k = gen_pkg2_keys(key);
        *self = Pkg2Decryptor {
            iv: key,
            enc_type: self.enc_type,
            keys: k,
            hash1: self.hash1,
            hash_version: self.hash_version,
        };
    }

    pub fn is_pkg2(&self) -> (r: bool)
        ensures
            r,
    {
        true
    }

    /// Sets the scheme and, for schemes that do not depend on the file
    /// position, derives the key stream from `key`.
    pub fn set_iv(&mut self, key: u64, enc_type: DecrypterType)
        ensures
            final(self)@ == old(self)@.after_set_iv(key, enc_type),
    {
        proof {
            use_type_invariant(&*self);
        }
        self.enc_type = enc_type;
        match enc_type {
            DecrypterType::KMST1204 | DecrypterType::KMST1205 => {},
            _ => self.calculate_keys(key),
        }
    }

    /// Sets the scheme and the key material of the file, and derives the key
    /// stream: at position 0 for the position-dependent schemes, from the
    /// scheme's key derivation for KMST1202 and KMST1199, and from
    /// `hash_version` itself otherwise.
    pub fn set_key_material(&mut self, hash1: u64, hash_version: u64, enc_type: DecrypterType)
        ensures
            final(self)@ == old(self)@.after_key_material(hash1, hash_version, enc_type),
    {
        proof {
            use_type_invariant(&*self);
        }
        self.enc_type = enc_type;
        self.hash1 = hash1;
        self.hash_version = hash_version;
        match enc_type {
            DecrypterType::KMST1204 | DecrypterType::KMST1205 => self.apply_file_position(0),
            DecrypterType::KMST1202 => self.calculate_keys(get_kmst1202_key(hash1, hash_version)),
            DecrypterType::KMST1199 => self.calculate_keys(
                get_kmst1199_key(hash1 as u32, hash_version as u32) as u64,
            ),
            _ => self.calculate_keys(hash_version),
        }
    }

    /// Moves a position-dependent decryptor to `file_position`.
    pub fn apply_file_position(&mut self, file_position: u64)
        ensures
            final(self)@ == old(self)@.at_position(file_position),
    {
        match self.enc_type {
            DecrypterType::KMST1204 => self.calculate_keys(
                get_kmst1204_key(self.hash1, self.hash_version, file_position),
            ),
            DecrypterType::KMST1205 => self.calculate_keys(
                get_kmst1205_key(self.hash1, self.hash_version, file_position),
            ),
            _ => {},
        }
    }

    pub fn get_enc_type(&self) -> (r: DecrypterType)
        ensures
            r == self@.enc_type,
    {
        self.enc_type
    }

    pub fn get_iv_hash(&self) -> (r: u64)
        ensures
            r == self@.iv,
            self@.keys == spec_pkg2_keys(self@.iv),
    {
        proof {
            use_type_invariant(&*self);
        }
        self.iv
    }

    /// The key stream repeats, so it is long enough for any size.
    pub fn is_enough(&self, _size: usize) -> (r: bool)
        ensures
            r,
    {
        true
    }

    /// The key byte that data byte `index` is xor-ed with.
    pub fn at(&mut self, index: usize) -> (r: &u8)
        ensures
            *r == old(self)@.keys[(index % 8) as int],
            final(self)@ == old(self)@,
            old(self)@.keys == spec_pkg2_keys(old(self)@.iv),
    {
        proof {
            use_type_invariant(&*self);
        }
        &self.keys[index % 8]
    }

    /// The key byte that data byte `index` is xor-ed with.
    pub fn try_at(&self, index: usize) -> (r: Option<&u8>)
        ensures
            r is Some,
            *r.unwrap() == self@.keys[(index % 8) as int],
            self@.keys == spec_pkg2_keys(self@.iv),
    {
        proof {
            use_type_invariant(&*self);
        }
        Some(&self.keys[index % 8])
    }

    /// Xors `data` with the key stream.
    pub fn decrypt_slice(&self, data: &mut [u8])
        ensures
            final(data)@ == xor_keystream(old(data)@, self@.keys),
            self@.keys == spec_pkg2_keys(self@.iv),
    {
        proof {
            use_type_invariant(&*self);
        }
        let ghost orig = data@;
        let mut i: usize = 0;
        while i < data.len()
            invariant
                data@.len() == orig.len(),
                i <= data@.len(),
                self.keys@.len() == 8,
                forall|j: int| 0 <= j < i ==> data@[j] == orig[j] ^ self.keys@[j % 8],
                forall|j: int| i <= j < data@.len() ==> data@[j] == orig[j],
            decreases data@.len() - i,
        {
            let b = data[i] ^ self.keys[i % 8];
            data[i] = b;
            i += 1;
        }
        proof {
            assert(data@ =~= xor_keystream(orig, self@.keys));
        }
    }

    /// Xors `data`, which lies at file position `offset`, with the key
    /// stream of that position.
    pub fn decrypt_slice_with_offset(&self, data: &mut [u8], offset: u64)
        ensures
            final(data)@ == xor_keystream(old(data)@, self@.keys_at(offset)),
            self@.keys == spec_pkg2_keys(self@.iv),
    {
        proof {
            use_type_invariant(&*self);
        }
        let keys = match self.enc_type {
            DecrypterType::KMST1204 => gen_pkg2_keys(get_kmst1204_key(self.hash1, self.hash_version, offset)),
            DecrypterType::KMST1205 => gen_pkg2_keys(get_kmst1205_key(self.hash1, self.hash_version, offset)),
            _ => self.keys,
        };
        let ghost orig = data@;
        let mut i: usize = 0;
        while i < data.len()
            invariant
                data@.len() == orig.len(),
                i <= data@.len(),
                keys@.len() == 8,
                keys@ == self@.keys_at(offset),
                forall|j: int| 0 <= j < i ==> data@[j] == orig[j] ^ keys@[j % 8],
                forall|j: int| i <= j < data@.len() ==> data@[j] == orig[j],
            decreases data@.len() - i,
        {
            let b = data[i] ^ keys[i % 8];
            data[i] = b;
            i += 1;
        }
        proof {
            assert(data@ =~= xor_keystream(orig, keys@));
        }
    }

    pub fn ensure_key_size(&mut self, _size: usize) -> (r: Result<(), String>)
        ensures
            r is Ok,
            final(self)@ == old(self)@,
    {
        Ok(())
    }
}

/// The 8-byte key stream of `key`.
pub fn gen_pkg2_keys(key: u64) -> (r: [u8; 8])
    ensures
        r@ == spec_pkg2_keys(key),
{
    let k0 = (key & 0xff) as u8;
    let k1 = ((key >> 8u64) & 0xff) as u8;
    let k2 = ((key >> 16u64) & 0xff) as u8;
    let k3 = ((key >> 24u64) & 0xff) as u8;
    let k4 = ((key >> 32u64) & 0xff) as u8;
    proof {
        assert(key >> 0u64 == key) by (bit_vector);
    }
    let r = [k0, k1, k1, k2, k2, k3, k3, k4];
    proof {
        assert(r@ =~= spec_pkg2_keys(key));
    }
    r
}

pub fn get_kmst1199_key(hash1: u32, hash_version: u32) -> (r: u32)
    ensures
        r == spec_kmst1199_key(hash1, hash_version),
{
    let base_hash = hash1 ^ hash_version ^ 0x6D4C3B2A;
    mix_kmst1199(mix_kmst1199(base_hash) ^ 0x4F4CB34A)
}

pub fn get_kmst1202_key(hash1: u64, hash_version: u64) -> (r: u64)
    ensures
        r == spec_kmst1202_key(hash1, hash_version),
{
    hash1 ^ hash_version ^ 0x66B57FEE317FD3DF
}

/// KMST1204 position-dependent directory string key.
pub fn get_kmst1204_key(hash1: u64, hash_version: u64, file_position: u64) -> (r: u64)
    ensures
        r == spec_kmst1204_key(hash1, hash_version, file_position),
{
    hash1 ^ hash_version ^ 0x21810F65FEC32BDCu64 ^ 0x9E3779B97F4A7C15u64.wrapping_mul(file_position)
}

/// Core KMST1205 64-bit mixer shared by hash, offset, and string-key calculations.
pub fn mix_kmst1205(hash_version: u64, hash1: u64) -> (r: u64)
    ensures
        r == spec_mix_kmst1205(hash_version, hash1),
{
    reveal(spec_mix_kmst1205);
    let v2 = rotate_left_u64(hash1 ^ 0x81B4_A012_24AA_B10C, 31);

    let t1 = 0xFF51_AFD7_ED55_8CCDu64.wrapping_mul(v2 ^ (v2 >> 33u32));
    let mut v3 = 0xC4CE_B9FE_1A85_EC53u64.wrapping_mul(t1 ^ (t1 >> 29u32));
    v3 ^= v3 >> 32u32;

    let a = hash_version.wrapping_sub(0x2E4A_B5CD_2E6D_12FD);
    let t2 = a ^ 0x84CA_A73B_2BB7_0682;
    let v4 = rotate_right_u64(0xBF58_476D_1CE4_E5B9u64.wrapping_mul(t2 ^ (t2 >> 30u32)), 27);
    let v5x = 0x94D0_49BB_1331_11EBu64.wrapping_mul(v4 ^ (v4 >> 27u32));
    let v5 = v5x ^ (v5x >> 31u32);
    let v6 = v5.wrapping_add(0x510E_527F_ADE6_82D1);
    let v7 = rotate_left_u64(v5, 17);

    let tmp = v3.wrapping_add(v6);
    let v8 = 0x9FB2_1C65_1E98_DF25u64.wrapping_mul(
        tmp ^ rotate_right_u64(tmp, 25) ^ rotate_right_u64(tmp, 47),
    );
    let f = v3 ^ v8 ^ v7 ^ (v8 >> 28u32);
    let fx = 0x94D0_49BB_1331_11EBu64.wrapping_mul(f ^ (f >> 29u32));
    fx ^ (fx >> 32u32)
}

/// KMST1205 position-dependent directory string key.
pub fn get_kmst1205_key(hash1: u64, hash_version: u64, file_position: u64) -> (r: u64)
    ensures
        r == spec_kmst1205_key(hash1, hash_version, file_position),
{
    let mixed = mix_kmst1205(hash_version, hash1);
    let mul1 = 0xD1B5_4A32_D192_ED03u64.wrapping_mul(file_position);
    let v43 = mul1 ^ rotate_left_u64(mul1, 32);

    let t1 = v43 ^ mixed ^ 0x6A09_E667_F3BC_C908;
    let v44 = 0x2545_F491_4F6C_DD1Du64.wrapping_mul(
        t1 ^ rotate_left_u64(t1, 23) ^ rotate_left_u64(t1, 41),
    );

    let sum1 = v43.wrapping_add(mixed).wrapping_add(0x510E_527F_ADE6_82D1);
    let v45 = 0x9FB2_1C65_1E98_DF25u64.wrapping_mul(
        sum1 ^ rotate_right_u64(sum1, 25) ^ rotate_right_u64(sum1, 47),
    );

    let t2 = 0xBF58_476D_1CE4_E5B9u64.wrapping_mul(v44 ^ (v44 >> 32u32) as u32 as u64);
    let inner = v45 ^ t2 ^ (t2 >> 29u32) ^ (v45 >> 28u32);
    proof {
        lemma_shr_is_div_u64(v43);
    }
    let v46 = rotate_left_u64(inner, (v43 & 0x3F) as u32);
    v46 ^ (v46 >> 29u32)
}

pub(crate) fn mix_kmst1199(key: u32) -> (r: u32)
    ensures
        r == spec_mix_kmst1199(key),
{
    let mut key = key;
    key ^= key >> 16u32;
    key = key.wrapping_mul(0x7FEB352D);
    key ^= key >> 15u32;
    key = key.wrapping_mul(0x846CA68B);
    key ^ (key >> 16u32)
}

} // verus!
