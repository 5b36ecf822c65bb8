use cs_hpke::agility::{agile_gen_keypair, AgileKeypair};
use cs_hpke::algorithms::{KdfAlg, KemAlg};
use cs_hpke::psk::get_psk_from_id;
use hpke::aead::{Aead, AesGcm128, AesGcm256, ChaCha20Poly1305};
use hpke::kdf::{HkdfSha256, HkdfSha384, HkdfSha512, Kdf as KdfTrait};
use hpke::kem::{DhP256HkdfSha256, X25519HkdfSha256};
use hpke::{Deserializable, Kem as KemTrait, OpModeR, OpModeS, PskBundle};
use rand::rngs::StdRng;
use rand::SeedableRng;

fn typed_pair<M: KemTrait>(kp: &AgileKeypair) -> (M::PrivateKey, M::PublicKey) {
    (
        M::PrivateKey::from_bytes(&kp.0.privkey_bytes).unwrap(),
        M::PublicKey::from_bytes(&kp.1.pubkey_bytes).unwrap(),
    )
}

/// Seals and opens one message in every operation mode, with keys generated and pre-shared
/// keys looked up by the library, and checks that altered inputs do not open.
fn round_trip<A: Aead, K: KdfTrait, M: KemTrait>(kem: KemAlg, kdf: KdfAlg, rng: &mut StdRng) {
    let receiver = agile_gen_keypair(kem, rng);
    let sender = agile_gen_keypair(kem, rng);
    let psk = get_psk_from_id(&[1], kdf).unwrap();
    let psk_id = [1u8];
    let bundle = PskBundle { psk: &psk, psk_id: &psk_id };
    let (sk_r, pk_r) = typed_pair::<M>(&receiver);
    let modes: Vec<(OpModeS<M>, OpModeR<M>)> = vec![
        (OpModeS::Base, OpModeR::Base),
        (OpModeS::Psk(bundle), OpModeR::Psk(bundle)),
        (OpModeS::Auth(typed_pair::<M>(&sender)), OpModeR::Auth(typed_pair::<M>(&sender).1)),
        (
            OpModeS::AuthPsk(typed_pair::<M>(&sender), bundle),
            OpModeR::AuthPsk(typed_pair::<M>(&sender).1, bundle),
        ),
    ];
    for (ms, mr) in modes {
        let (enc, mut s) = hpke::setup_sender::<A, K, M, _>(&ms, &pk_r, b"info", rng).unwrap();
        let mut r = hpke::setup_receiver::<A, K, M>(&mr, &sk_r, &enc, b"info").unwrap();
        let ct = s.seal(b"a message", b"aad").unwrap();
        assert!(r.open(&ct, b"bad").is_err());
        let mut altered = ct.clone();
        altered[0] ^= 0x80;
        assert!(r.open(&altered, b"aad").is_err());
        assert_eq!(r.open(&ct, b"aad").unwrap(), b"a message".to_vec());
    }
}

fn every_aead<K: KdfTrait, M: KemTrait>(kem: KemAlg, kdf: KdfAlg, rng: &mut StdRng) {
    round_trip::<AesGcm128, K, M>(kem, kdf, rng);
    round_trip::<AesGcm256, K, M>(kem, kdf, rng);
    round_trip::<ChaCha20Poly1305, K, M>(kem, kdf, rng);
}

fn every_kdf<M: KemTrait>(kem: KemAlg, rng: &mut StdRng) {
    every_aead::<HkdfSha256, M>(kem, KdfAlg::HkdfSha256, rng);
    every_aead::<HkdfSha384, M>(kem, KdfAlg::HkdfSha384, rng);
    every_aead::<HkdfSha512, M>(kem, KdfAlg::HkdfSha512, rng);
}

#[test]
fn every_suite_and_mode_opens_what_it_sealed() {
    let mut rng = StdRng::seed_from_u64(11);
    every_kdf::<X25519HkdfSha256>(KemAlg::X25519HkdfSha256, &mut rng);
    every_kdf::<DhP256HkdfSha256>(KemAlg::DhP256HkdfSha256, &mut rng);
}
