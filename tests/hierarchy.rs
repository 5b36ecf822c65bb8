use cs_hpke::errors::ProtocolError;
use cs_hpke::hierarchy::{
    derive_key, derive_pair_key, derive_role_key, derive_session_key_both_ways,
    generate_server_session_keys, generate_session_keys,
};
use sha2::{Digest, Sha256};

fn one_block(secret: &[u8], info: &[u8]) -> Vec<u8> {
    let mut h = Sha256::new();
    h.update([0u8, 0, 0, 1]);
    h.update(secret);
    h.update(info);
    h.finalize().to_vec()
}

#[test]
fn derive_key_is_concat_kdf_over_sha256() {
    let k = derive_key(b"shared-secret", b"other-info").unwrap();
    assert_eq!(k.len(), 32);
    assert_eq!(k, one_block(b"shared-secret", b"other-info"));
    assert_ne!(k, b"shared-secret".to_vec());
    let mut direct = [0u8; 32];
    concat_kdf::derive_key_into::<sha2::Sha256>(b"shared-secret", b"other-info", &mut direct)
        .unwrap();
    assert_eq!(k, direct.to_vec());
}

#[test]
fn empty_secret_derives_nothing() {
    assert_eq!(derive_key(b"", b"label"), Err(ProtocolError::KeyDerivation));
    assert_eq!(derive_role_key(b"", &[1], &[13]), Err(ProtocolError::KeyDerivation));
    assert_eq!(generate_session_keys(&vec![1; 32], b"", b"5-tuple"), Err(ProtocolError::KeyDerivation));
}

#[test]
fn different_labels_give_different_keys() {
    let a = derive_key(&[7; 32], &[1]).unwrap();
    let b = derive_key(&[7; 32], &[2]).unwrap();
    assert_ne!(a, b);
}

#[test]
fn client_and_server_paths_agree() {
    let root = [9u8; 32];
    let pair_id = [1u8];
    let client_id = [13u8];
    let kri = b"kri";
    let tuple5 = b"5-tuple";

    let sck = derive_role_key(&root, &pair_id, &client_id).unwrap();
    let (scsk_client, sssk_client) = generate_session_keys(&sck, kri, tuple5).unwrap();

    let ssk = derive_pair_key(&root, &pair_id).unwrap();
    let (sck_server, scsk_server, sssk_server) =
        generate_server_session_keys(&ssk, kri, tuple5, &client_id).unwrap();

    assert_eq!(sck, sck_server);
    assert_eq!(scsk_client, scsk_server);
    assert_eq!(sssk_client, sssk_server);
    assert_eq!(scsk_client, sssk_client);
    let binder = one_block(kri, tuple5);
    assert_eq!(scsk_client, one_block(&binder, &sck));
}

#[test]
fn hierarchy_is_deterministic() {
    let a = derive_role_key(&[3; 32], &[1], &[13]).unwrap();
    let b = derive_role_key(&[3; 32], &[1], &[13]).unwrap();
    assert_eq!(a, b);
    assert_eq!(a, one_block(&one_block(&[3; 32], &[1]), &[13]));
}

#[test]
fn both_ways_give_the_same_session_key() {
    let (c, s) = derive_session_key_both_ways(&[9; 32], &[1], &[13], b"kri", b"5-tuple").unwrap();
    assert_eq!(c, s);
    assert_eq!(c.len(), 32);
    let sck = derive_role_key(&[9; 32], &[1], &[13]).unwrap();
    assert_eq!(c, generate_session_keys(&sck, b"kri", b"5-tuple").unwrap().0);
    assert_eq!(
        derive_session_key_both_ways(&[], &[1], &[13], b"kri", b"5-tuple"),
        Err(ProtocolError::KeyDerivation)
    );
    assert_eq!(
        derive_session_key_both_ways(&[9; 32], &[1], &[13], b"", b"5-tuple"),
        Err(ProtocolError::KeyDerivation)
    );
}

#[test]
fn empty_role_key_still_derives() {
    let (a, b) = generate_session_keys(&vec![], b"kri", b"5-tuple").unwrap();
    assert_eq!(a, b);
    assert_eq!(a, one_block(&one_block(b"kri", b"5-tuple"), &[]));
}
