use vstd::prelude::*;
use std::collections::HashMap;
use crate::algorithms::{kdf_output_len, KdfAlg};
use crate::errors::ProtocolError;

verus! {

broadcast use vstd::std_specs::hash::group_hash_axioms;

pub const PSK_HKDF_SHA256_1: [u8; 32] = [
    166, 74, 40, 96, 216, 149, 173, 61, 146, 6, 204, 211, 206, 217, 20, 96, 88, 203, 183, 222,
    4, 248, 166, 100, 231, 213, 111, 244, 152, 168, 150, 88,
];

pub const PSK_HKDF_SHA256_2: [u8; 32] = [
    136, 221, 141, 112, 173, 179, 212, 5, 89, 128, 70, 242, 63, 232, 89, 89, 98, 144, 3, 158,
    239, 50, 19, 189, 232, 225, 167, 140, 117, 46, 66, 246,
];

pub const PSK_HKDF_SHA256_3: [u8; 32] = [
    30, 166, 92, 95, 198, 232, 94, 241, 173, 165, 216, 23, 45, 19, 1, 35, 64, 152, 85, 166, 59,
    127, 231, 79, 185, 18, 232, 140, 69, 83, 19, 157,
];

pub const PSK_HKDF_SHA384_1: [u8; 48] = [
    219, 157, 14, 183, 113, 255, 170, 71, 85, 145, 107, 169, 103, 228, 25, 65, 11, 222, 86,
    212, 66, 42, 85, 200, 109, 83, 94, 70, 5, 171, 231, 60, 162, 181, 139, 6, 232, 208, 60,
    178, 69, 92, 47, 118, 227, 69, 76, 252,
];

pub const PSK_HKDF_SHA384_2: [u8; 48] = [
    44, 107, 146, 149, 91, 25, 55, 69, 17, 57, 222, 249, 2, 41, 35, 184, 87, 103, 238, 142, 90,
    28, 79, 90, 192, 169, 188, 61, 149, 172, 6, 225, 247, 189, 246, 253, 240, 48, 50, 119, 236,
    107, 221, 129, 236, 253, 157, 208,
];

pub const PSK_HKDF_SHA384_3: [u8; 48] = [
    136, 112, 24, 242, 85, 165, 212, 135, 90, 251, 55, 118, 212, 123, 131, 122, 126, 76, 249,
    198, 178, 180, 61, 145, 127, 97, 170, 230, 94, 25, 144, 242, 184, 132, 51, 20, 183, 41,
    200, 42, 188, 37, 247, 243, 225, 95, 216, 221,
];

pub const PSK_HKDF_SHA512_1: [u8; 64] = [
    201, 89, 61, 88, 152, 62, 116, 134, 114, 58, 116, 64, 38, 249, 130, 172, 36, 130, 164, 124,
    126, 36, 61, 155, 150, 74, 33, 193, 47, 80, 160, 207, 232, 161, 169, 222, 214, 65, 184, 26,
    61, 238, 119, 156, 185, 64, 69, 12, 253, 253, 206, 127, 38, 239, 166, 173, 179, 137, 220,
    132, 237, 55, 138, 6,
];

pub const PSK_HKDF_SHA512_2: [u8; 64] = [
    66, 106, 62, 93, 90, 233, 58, 252, 51, 18, 185, 36, 85, 163, 173, 86, 244, 26, 72, 85, 205,
    36, 157, 144, 92, 29, 40, 235, 246, 45, 13, 210, 230, 138, 166, 223, 44, 198, 183, 58, 18,
    71, 51, 39, 84, 33, 49, 178, 192, 102, 153, 112, 188, 53, 222, 68, 210, 150, 50, 249, 102,
    158, 218, 53,
];

pub const PSK_HKDF_SHA512_3: [u8; 64] = [
    62, 149, 11, 184, 180, 80, 5, 51, 120, 239, 115, 144, 124, 238, 100, 204, 221, 71, 119,
    127, 28, 176, 192, 117, 84, 185, 139, 39, 84, 73, 247, 123, 100, 167, 117, 207, 253, 226,
    26, 50, 145, 204, 249, 248, 140, 173, 67, 77, 107, 130, 55, 243, 62, 108, 223, 15, 67, 227,
    27, 36, 228, 57, 203, 183,
];

/// The stored pre-shared key for a KDF and an identifier, if there is one.
pub open spec fn psk_value(kdf: KdfAlg, id: u8) -> Option<Seq<u8>> {
    match kdf {
        KdfAlg::HkdfSha256 => if id == 1 {
            Some(PSK_HKDF_SHA256_1@)
        } else if id == 2 {
            Some(PSK_HKDF_SHA256_2@)
        } else if id == 3 {
            Some(PSK_HKDF_SHA256_3@)
        } else {
            None
        },
        KdfAlg::HkdfSha384 => if id == 1 {
            Some(PSK_HKDF_SHA384_1@)
        } else if id == 2 {
            Some(PSK_HKDF_SHA384_2@)
        } else if id == 3 {
            Some(PSK_HKDF_SHA384_3@)
        } else {
            None
        },
        KdfAlg::HkdfSha512 => if id == 1 {
            Some(PSK_HKDF_SHA512_1@)
        } else if id == 2 {
            Some(PSK_HKDF_SHA512_2@)
        } else if id == 3 {
            Some(PSK_HKDF_SHA512_3@)
        } else {
            None
        },
    }
}

/// What a lookup by identifier bytes returns: the key stored under a one-byte identifier.
pub open spec fn psk_lookup(id: Seq<u8>, kdf: KdfAlg) -> Result<Seq<u8>, ProtocolError> {
    if id.len() != 1 {
        Err(ProtocolError::UnknownPsk)
    } else {
        match psk_value(kdf, id[0]) {
            Some(k) => Ok(k),
            None => Err(ProtocolError::UnknownPsk),
        }
    }
}

/// Every stored key is exactly as long as the native output of the KDF it is stored for.
pub proof fn lemma_psk_length(kdf: KdfAlg, id: u8)
    ensures
        psk_value(kdf, id) matches Some(k) ==> k.len() == kdf_output_len(kdf),
{
}

/// The keys for HKDF-SHA256, by identifier.
pub fn hashmap_psk_hkdfsha256() -> (r: HashMap<u8, [u8; 32]>)
    ensures
        r@ == map![1u8 => PSK_HKDF_SHA256_1, 2u8 => PSK_HKDF_SHA256_2, 3u8 => PSK_HKDF_SHA256_3],
{
    let mut m: HashMap<u8, [u8; 32]> = HashMap::new();
    m.insert(1, PSK_HKDF_SHA256_1);
    m.insert(2, PSK_HKDF_SHA256_2);
    m.insert(3, PSK_HKDF_SHA256_3);
    assert(m@ =~= map![1u8 => PSK_HKDF_SHA256_1, 2u8 => PSK_HKDF_SHA256_2, 3u8 => PSK_HKDF_SHA256_3]);
    m
}

/// The keys for HKDF-SHA384, by identifier.
pub fn hashmap_psk_hkdfsha384() -> (r: HashMap<u8, [u8; 48]>)
    ensures
        r@ == map![1u8 => PSK_HKDF_SHA384_1, 2u8 => PSK_HKDF_SHA384_2, 3u8 => PSK_HKDF_SHA384_3],
{
    let mut m: HashMap<u8, [u8; 48]> = HashMap::new();
    m.insert(1, PSK_HKDF_SHA384_1);
    m.insert(2, PSK_HKDF_SHA384_2);
    m.insert(3, PSK_HKDF_SHA384_3);
    assert(m@ =~= map![1u8 => PSK_HKDF_SHA384_1, 2u8 => PSK_HKDF_SHA384_2, 3u8 => PSK_HKDF_SHA384_3]);
    m
}

/// The keys for HKDF-SHA512, by identifier.
pub fn hashmap_psk_hkdfsha512() -> (r: HashMap<u8, [u8; 64]>)
    ensures
        r@ == map![1u8 => PSK_HKDF_SHA512_1, 2u8 => PSK_HKDF_SHA512_2, 3u8 => PSK_HKDF_SHA512_3],
{
    let mut m: HashMap<u8, [u8; 64]> = HashMap::new();
    m.insert(1, PSK_HKDF_SHA512_1);
    m.insert(2, PSK_HKDF_SHA512_2);
    m.insert(3, PSK_HKDF_SHA512_3);
    assert(m@ =~= map![1u8 => PSK_HKDF_SHA512_1, 2u8 => PSK_HKDF_SHA512_2, 3u8 => PSK_HKDF_SHA512_3]);
    m
}

fn bytes_of<const N: usize>(a: &[u8; N]) -> (r: Vec<u8>)
    ensures
        r@ == a@,
{
    let s = a.as_slice();
    let mut v: Vec<u8> = Vec::new();
    let mut i: usize = 0;
    while i < s.len()
        invariant
            s@ == a@,
            i <= s@.len(),
            v@ =~= s@.take(i as int),
        decreases s.len() - i,
    {
        v.push(s[i]);
        i = i + 1;
    }
    assert(s@.take(i as int) =~= s@);
    v
}

/// The pre-shared key stored under the one-byte identifier `id` for `kdf`.
pub fn get_psk_from_id(id: &[u8], kdf: KdfAlg) -> (r: Result<Vec<u8>, ProtocolError>)
    ensures
        match psk_lookup(id@, kdf) {
            Ok(k) => r matches Ok(v) && v@ == k && v@.len() == kdf_output_len(kdf),
            Err(e) => r == Err::<Vec<u8>, ProtocolError>(e),
        },
{
    if id.len() != 1 {
        return Err(ProtocolError::UnknownPsk);
    }
    let key = id[0];
    proof {
        lemma_psk_length(kdf, key);
    }
    match kdf {
        KdfAlg::HkdfSha256 => {
            let m = hashmap_psk_hkdfsha256();
            match m.get(&key) {
                Some(a) => Ok(bytes_of(a)),
                None => Err(ProtocolError::UnknownPsk),
            }
        },
        KdfAlg::HkdfSha384 => {
            let m = hashmap_psk_hkdfsha384();
            match m.get(&key) {
                Some(a) => Ok(bytes_of(a)),
                None => Err(ProtocolError::UnknownPsk),
            }
        },
        KdfAlg::HkdfSha512 => {
            let m = hashmap_psk_hkdfsha512();
            match m.get(&key) {
                Some(a) => Ok(bytes_of(a)),
                None => Err(ProtocolError::UnknownPsk),
            }
        },
    }
}

} // verus!
