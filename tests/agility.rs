use cs_hpke::agility::{
    agile_gen_keypair, agile_setup_receiver_primary, agile_setup_sender_primary, AgileEncappedKey,
    AgileKeypair, AgileOpModeR, AgileOpModeRTy, AgileOpModeS, AgileOpModeSTy, AgilePskBundle,
    AgilePublicKey,
};
use cs_hpke::algorithms::{KdfAlg, KemAlg};
use cs_hpke::errors::ProtocolError;
use cs_hpke::psk::get_psk_from_id;
use rand::rngs::StdRng;
use rand::SeedableRng;

fn bundle(kdf: KdfAlg) -> AgilePskBundle {
    AgilePskBundle { psk: get_psk_from_id(&[2], kdf).unwrap(), psk_id: vec![2] }
}

fn modes(
    kem: KemAlg,
    kdf: KdfAlg,
    sender: &AgileKeypair,
) -> Vec<(AgileOpModeS, AgileOpModeR)> {
    vec![
        (
            AgileOpModeS { kem_alg: kem, op_mode_ty: AgileOpModeSTy::Base },
            AgileOpModeR { kem_alg: kem, op_mode_ty: AgileOpModeRTy::Base },
        ),
        (
            AgileOpModeS { kem_alg: kem, op_mode_ty: AgileOpModeSTy::Psk(bundle(kdf)) },
            AgileOpModeR { kem_alg: kem, op_mode_ty: AgileOpModeRTy::Psk(bundle(kdf)) },
        ),
        (
            AgileOpModeS { kem_alg: kem, op_mode_ty: AgileOpModeSTy::Auth(sender.clone()) },
            AgileOpModeR { kem_alg: kem, op_mode_ty: AgileOpModeRTy::Auth(sender.1.clone()) },
        ),
        (
            AgileOpModeS {
                kem_alg: kem,
                op_mode_ty: AgileOpModeSTy::AuthPsk(sender.clone(), bundle(kdf)),
            },
            AgileOpModeR {
                kem_alg: kem,
                op_mode_ty: AgileOpModeRTy::AuthPsk(sender.1.clone(), bundle(kdf)),
            },
        ),
    ]
}

#[test]
fn keypairs_have_the_kem_lengths() {
    let mut rng = StdRng::seed_from_u64(1);
    let x = agile_gen_keypair(KemAlg::X25519HkdfSha256, &mut rng);
    assert_eq!((x.0.privkey_bytes.len(), x.1.pubkey_bytes.len()), (32, 32));
    assert_eq!(x.1.kem_alg, KemAlg::X25519HkdfSha256);
    let p = agile_gen_keypair(KemAlg::DhP256HkdfSha256, &mut rng);
    assert_eq!((p.0.privkey_bytes.len(), p.1.pubkey_bytes.len()), (32, 65));
    assert_eq!(p.1.pubkey_bytes[0], 4);
}

#[test]
fn both_sides_reach_the_same_root_secret_in_every_mode() {
    let mut rng = StdRng::seed_from_u64(2);
    for kem in [KemAlg::X25519HkdfSha256, KemAlg::DhP256HkdfSha256] {
        for kdf in [KdfAlg::HkdfSha256, KdfAlg::HkdfSha384, KdfAlg::HkdfSha512] {
            let receiver = agile_gen_keypair(kem, &mut rng);
            let sender = agile_gen_keypair(kem, &mut rng);
            for (ms, mr) in modes(kem, kdf, &sender) {
                let (enc, ss) =
                    agile_setup_sender_primary(kdf, kem, &ms, &receiver.1, &mut rng).unwrap();
                assert_eq!(enc.kem_alg, kem);
                assert_eq!(enc.encapped_key_bytes.len(), kem.public_key_len());
                assert_eq!(ss.len(), 32);
                let rs = agile_setup_receiver_primary(kdf, kem, &mr, &receiver, &enc).unwrap();
                assert_eq!(ss, rs);
            }
        }
    }
}

#[test]
fn tampered_encapsulated_key_changes_or_fails_the_secret() {
    let mut rng = StdRng::seed_from_u64(3);
    let kem = KemAlg::X25519HkdfSha256;
    let receiver = agile_gen_keypair(kem, &mut rng);
    let ms = AgileOpModeS { kem_alg: kem, op_mode_ty: AgileOpModeSTy::Base };
    let mr = AgileOpModeR { kem_alg: kem, op_mode_ty: AgileOpModeRTy::Base };
    let (mut enc, ss) = agile_setup_sender_primary(KdfAlg::HkdfSha256, kem, &ms, &receiver.1, &mut rng).unwrap();
    enc.encapped_key_bytes[0] ^= 1;
    match agile_setup_receiver_primary(KdfAlg::HkdfSha256, kem, &mr, &receiver, &enc) {
        Ok(rs) => assert_ne!(rs, ss),
        Err(e) => assert_eq!(e, ProtocolError::KeyExchange),
    }
}

#[test]
fn mismatched_tags_are_refused() {
    let mut rng = StdRng::seed_from_u64(4);
    let receiver = agile_gen_keypair(KemAlg::DhP256HkdfSha256, &mut rng);
    let ms = AgileOpModeS { kem_alg: KemAlg::X25519HkdfSha256, op_mode_ty: AgileOpModeSTy::Base };
    let r = agile_setup_sender_primary(
        KdfAlg::HkdfSha256,
        KemAlg::X25519HkdfSha256,
        &ms,
        &receiver.1,
        &mut rng,
    );
    assert_eq!(r.unwrap_err(), ProtocolError::AlgorithmMismatch);
}

#[test]
fn wrong_key_lengths_are_refused() {
    let mut rng = StdRng::seed_from_u64(5);
    let kem = KemAlg::X25519HkdfSha256;
    let ms = AgileOpModeS { kem_alg: kem, op_mode_ty: AgileOpModeSTy::Base };
    let short = AgilePublicKey { kem_alg: kem, pubkey_bytes: vec![1; 31] };
    let r = agile_setup_sender_primary(KdfAlg::HkdfSha256, kem, &ms, &short, &mut rng);
    assert_eq!(r.unwrap_err(), ProtocolError::KeyDeserialization);
    let receiver = agile_gen_keypair(kem, &mut rng);
    let mr = AgileOpModeR { kem_alg: kem, op_mode_ty: AgileOpModeRTy::Base };
    let enc = AgileEncappedKey { kem_alg: kem, encapped_key_bytes: vec![0; 65] };
    let r = agile_setup_receiver_primary(KdfAlg::HkdfSha256, kem, &mr, &receiver, &enc);
    assert_eq!(r.unwrap_err(), ProtocolError::KeyDeserialization);
}

#[test]
fn psk_of_the_wrong_length_is_refused() {
    let mut rng = StdRng::seed_from_u64(6);
    let kem = KemAlg::X25519HkdfSha256;
    let receiver = agile_gen_keypair(kem, &mut rng);
    let ms = AgileOpModeS { kem_alg: kem, op_mode_ty: AgileOpModeSTy::Psk(bundle(KdfAlg::HkdfSha256)) };
    let r = agile_setup_sender_primary(KdfAlg::HkdfSha512, kem, &ms, &receiver.1, &mut rng);
    assert_eq!(r.unwrap_err(), ProtocolError::PskLength);
}

#[test]
fn receiver_of_a_different_key_pair_does_not_reach_the_secret() {
    let mut rng = StdRng::seed_from_u64(7);
    let kem = KemAlg::DhP256HkdfSha256;
    let receiver = agile_gen_keypair(kem, &mut rng);
    let other = agile_gen_keypair(kem, &mut rng);
    let ms = AgileOpModeS { kem_alg: kem, op_mode_ty: AgileOpModeSTy::Base };
    let mr = AgileOpModeR { kem_alg: kem, op_mode_ty: AgileOpModeRTy::Base };
    let (enc, ss) =
        agile_setup_sender_primary(KdfAlg::HkdfSha256, kem, &ms, &receiver.1, &mut rng).unwrap();
    let wrong = agile_setup_receiver_primary(KdfAlg::HkdfSha256, kem, &mr, &other, &enc).unwrap();
    assert_ne!(wrong, ss);
}

#[test]
fn authentication_binds_the_sender_key() {
    let mut rng = StdRng::seed_from_u64(8);
    let kem = KemAlg::X25519HkdfSha256;
    let receiver = agile_gen_keypair(kem, &mut rng);
    let sender = agile_gen_keypair(kem, &mut rng);
    let impostor = agile_gen_keypair(kem, &mut rng);
    let ms = AgileOpModeS { kem_alg: kem, op_mode_ty: AgileOpModeSTy::Auth(sender.clone()) };
    let (enc, ss) =
        agile_setup_sender_primary(KdfAlg::HkdfSha256, kem, &ms, &receiver.1, &mut rng).unwrap();
    let base = AgileOpModeR { kem_alg: kem, op_mode_ty: AgileOpModeRTy::Base };
    let as_base = agile_setup_receiver_primary(KdfAlg::HkdfSha256, kem, &base, &receiver, &enc).unwrap();
    assert_ne!(as_base, ss);
    let wrong = AgileOpModeR { kem_alg: kem, op_mode_ty: AgileOpModeRTy::Auth(impostor.1.clone()) };
    let r = agile_setup_receiver_primary(KdfAlg::HkdfSha256, kem, &wrong, &receiver, &enc).unwrap();
    assert_ne!(r, ss);
}
