use cs_hpke::algorithms::KdfAlg;
use cs_hpke::errors::ProtocolError;
use cs_hpke::psk::{
    get_psk_from_id, hashmap_psk_hkdfsha256, hashmap_psk_hkdfsha384, hashmap_psk_hkdfsha512,
    PSK_HKDF_SHA256_1, PSK_HKDF_SHA384_3, PSK_HKDF_SHA512_2,
};

#[test]
fn psk_length_is_the_kdf_output_length() {
    for kdf in [KdfAlg::HkdfSha256, KdfAlg::HkdfSha384, KdfAlg::HkdfSha512] {
        for id in 1u8..=3 {
            let psk = get_psk_from_id(&[id], kdf).unwrap();
            assert_eq!(psk.len(), kdf.get_digest_len());
        }
    }
    assert_eq!(get_psk_from_id(&[1], KdfAlg::HkdfSha256).unwrap().len(), 32);
    assert_eq!(get_psk_from_id(&[1], KdfAlg::HkdfSha384).unwrap().len(), 48);
    assert_eq!(get_psk_from_id(&[1], KdfAlg::HkdfSha512).unwrap().len(), 64);
}

#[test]
fn psk_lookup_returns_the_stored_key() {
    assert_eq!(get_psk_from_id(&[1], KdfAlg::HkdfSha256).unwrap(), PSK_HKDF_SHA256_1.to_vec());
    assert_eq!(get_psk_from_id(&[3], KdfAlg::HkdfSha384).unwrap(), PSK_HKDF_SHA384_3.to_vec());
    assert_eq!(get_psk_from_id(&[2], KdfAlg::HkdfSha512).unwrap(), PSK_HKDF_SHA512_2.to_vec());
    assert_eq!(get_psk_from_id(&[1], KdfAlg::HkdfSha256).unwrap()[0], 166);
    assert_eq!(get_psk_from_id(&[3], KdfAlg::HkdfSha384).unwrap()[47], 221);
}

#[test]
fn unknown_psk_ids_are_refused() {
    assert_eq!(get_psk_from_id(&[4], KdfAlg::HkdfSha256), Err(ProtocolError::UnknownPsk));
    assert_eq!(get_psk_from_id(&[0], KdfAlg::HkdfSha512), Err(ProtocolError::UnknownPsk));
    assert_eq!(get_psk_from_id(&[], KdfAlg::HkdfSha256), Err(ProtocolError::UnknownPsk));
    assert_eq!(get_psk_from_id(&[1, 2], KdfAlg::HkdfSha384), Err(ProtocolError::UnknownPsk));
}

#[test]
fn psk_tables_hold_three_keys_each() {
    let a = hashmap_psk_hkdfsha256();
    let b = hashmap_psk_hkdfsha384();
    let c = hashmap_psk_hkdfsha512();
    assert_eq!((a.len(), b.len(), c.len()), (3, 3, 3));
    assert_eq!(a.get(&1), Some(&PSK_HKDF_SHA256_1));
    assert_eq!(b.get(&3), Some(&PSK_HKDF_SHA384_3));
    assert_eq!(c.get(&2), Some(&PSK_HKDF_SHA512_2));
    assert!(a.get(&4).is_none());
}
