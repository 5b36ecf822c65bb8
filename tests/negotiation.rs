use cs_hpke::algorithms::{AeadAlg, CipherSuite, KdfAlg, KemAlg};
use cs_hpke::catalog::{supported_aead_algs, supported_kdf_algs, supported_kem_algs};
use cs_hpke::codes;
use cs_hpke::errors::ProtocolError;
use cs_hpke::negotiation::{choose_algorithms, offer_packets, responder_reply, selection_packets};
use cs_hpke::session::{OfferCollector, SelectionCollector, Step};
use cs_hpke::wire::pack_as_vect;

fn server_sets() -> (Vec<KemAlg>, Vec<KdfAlg>, Vec<AeadAlg>) {
    (vec![KemAlg::DhP256HkdfSha256], vec![KdfAlg::HkdfSha384], vec![AeadAlg::ChaCha20Poly1305])
}

#[test]
fn codes_are_the_hpke_identifiers() {
    assert_eq!(KemAlg::X25519HkdfSha256.to_u16(), 0x0020);
    assert_eq!(KemAlg::DhP256HkdfSha256.to_u16(), 0x0010);
    assert_eq!(KdfAlg::HkdfSha512.to_u16(), 0x0003);
    assert_eq!(AeadAlg::ChaCha20Poly1305.to_u16(), 0x0003);
    assert_eq!(KemAlg::try_from_u16(0x0020), Ok(KemAlg::X25519HkdfSha256));
    assert_eq!(KdfAlg::try_from_u16(0x0002), Ok(KdfAlg::HkdfSha384));
    assert_eq!(AeadAlg::try_from_u16(0x0001), Ok(AeadAlg::AesGcm128));
    assert_eq!(KemAlg::try_from_u16(0x0011), Err(ProtocolError::UnknownAlgorithm));
    assert_eq!(AeadAlg::try_from_u16(0xFFFF), Err(ProtocolError::UnknownAlgorithm));
    assert_eq!(KdfAlg::HkdfSha384.get_digest_len(), 48);
}

#[test]
fn offer_sends_one_packet_per_code_then_finish() {
    let p = offer_packets(&supported_kem_algs(), &supported_kdf_algs(), &supported_aead_algs());
    assert_eq!(p.len(), 9);
    assert_eq!(p[0], vec![codes::KEM, codes::UTF16, 2, 0x00, 0x20]);
    assert_eq!(p[1], vec![codes::KEM, codes::UTF16, 2, 0x00, 0x10]);
    assert_eq!(p[4], vec![codes::KDF, codes::UTF16, 2, 0x00, 0x03]);
    assert_eq!(p[7], vec![codes::AEAD, codes::UTF16, 2, 0x00, 0x03]);
    assert_eq!(p[8], vec![codes::FINISH, codes::UTF8, 0]);
}

#[test]
fn scenario_suite_is_the_only_common_one() {
    let (sk, sd, sa) = server_sets();
    let mut c = OfferCollector::new();
    let packets = offer_packets(&supported_kem_algs(), &supported_kdf_algs(), &supported_aead_algs());
    for (i, p) in packets.iter().enumerate() {
        let step = c.on_packet(p).unwrap();
        if i + 1 == packets.len() {
            assert_eq!(step, Step::Complete);
        } else {
            assert_eq!(step, Step::Accepted);
        }
    }
    assert_eq!(c.kems(), &vec![0x0020, 0x0010]);
    let suite = choose_algorithms(c.kems(), c.kdfs(), c.aeads(), &sk, &sd, &sa).unwrap();
    assert_eq!(
        suite,
        CipherSuite {
            kem: KemAlg::DhP256HkdfSha256,
            kdf: KdfAlg::HkdfSha384,
            aead: AeadAlg::ChaCha20Poly1305,
        }
    );
}

#[test]
fn last_offered_match_wins() {
    let suite = choose_algorithms(
        &vec![0x0020, 0x0010],
        &vec![0x0003, 0x0001],
        &vec![0x0001, 0x0002, 0x0003],
        &supported_kem_algs(),
        &supported_kdf_algs(),
        &supported_aead_algs(),
    )
    .unwrap();
    assert_eq!(suite.kem, KemAlg::DhP256HkdfSha256);
    assert_eq!(suite.kdf, KdfAlg::HkdfSha256);
    assert_eq!(suite.aead, AeadAlg::ChaCha20Poly1305);
}

#[test]
fn chosen_suite_is_in_both_sets() {
    let client_kems = vec![0x0010u16, 0x0020];
    let client_kdfs = vec![0x0002u16];
    let client_aeads = vec![0x0002u16, 0x0001];
    let sk = vec![KemAlg::X25519HkdfSha256];
    let sd = vec![KdfAlg::HkdfSha384, KdfAlg::HkdfSha256];
    let sa = vec![AeadAlg::AesGcm256];
    let s = choose_algorithms(&client_kems, &client_kdfs, &client_aeads, &sk, &sd, &sa).unwrap();
    assert!(sk.contains(&s.kem) && client_kems.contains(&s.kem.to_u16()));
    assert!(sd.contains(&s.kdf) && client_kdfs.contains(&s.kdf.to_u16()));
    assert!(sa.contains(&s.aead) && client_aeads.contains(&s.aead.to_u16()));
}

#[test]
fn disjoint_family_aborts_with_break() {
    let choice = choose_algorithms(
        &vec![0x0020],
        &vec![0x0001],
        &vec![0x0001],
        &[KemAlg::DhP256HkdfSha256],
        &[KdfAlg::HkdfSha256],
        &[AeadAlg::AesGcm128],
    );
    assert_eq!(choice, Err(ProtocolError::NegotiationFailure));
    let reply = responder_reply(&choice, &vec![1, 2, 3]);
    assert_eq!(reply, vec![vec![codes::BREAK_CONNECTION]]);
}

#[test]
fn empty_offer_fails_negotiation() {
    let choice = choose_algorithms(
        &vec![],
        &vec![0x0001],
        &vec![0x0001],
        &supported_kem_algs(),
        &supported_kdf_algs(),
        &supported_aead_algs(),
    );
    assert_eq!(choice, Err(ProtocolError::NegotiationFailure));
}

#[test]
fn unknown_offered_code_is_rejected() {
    let choice = choose_algorithms(
        &vec![0x0020, 0x0099],
        &vec![0x0001],
        &vec![0x0001],
        &supported_kem_algs(),
        &supported_kdf_algs(),
        &supported_aead_algs(),
    );
    assert_eq!(choice, Err(ProtocolError::UnknownAlgorithm));
    assert!(responder_reply(&choice, &vec![1]).is_empty());
}

#[test]
fn selection_reaches_the_initiator_in_any_order() {
    let suite = CipherSuite {
        kem: KemAlg::X25519HkdfSha256,
        kdf: KdfAlg::HkdfSha512,
        aead: AeadAlg::AesGcm256,
    };
    let pk = vec![5u8; 32];
    let mut packets = selection_packets(suite, &pk);
    assert_eq!(packets[3][0], codes::PUBKEY);
    assert_eq!(packets[3][1], codes::UTF8);
    packets.reverse();
    let mut c = SelectionCollector::new();
    assert!(c.selection().is_none());
    let steps: Vec<Step> = packets.iter().map(|p| c.on_packet(p).unwrap()).collect();
    assert_eq!(steps, vec![Step::Accepted, Step::Accepted, Step::Accepted, Step::Complete]);
    let (s, key) = c.selection().unwrap();
    assert_eq!(s, suite);
    assert_eq!(key.kem_alg, KemAlg::X25519HkdfSha256);
    assert_eq!(key.pubkey_bytes, pk);
}

#[test]
fn initiator_stops_on_break() {
    let mut c = SelectionCollector::new();
    assert_eq!(c.on_packet(&[codes::BREAK_CONNECTION]), Err(ProtocolError::NegotiationFailure));
}

#[test]
fn initiator_refuses_unknown_selected_code() {
    let mut c = SelectionCollector::new();
    let p = pack_as_vect(vec![0x00, 0x42], codes::UTF16, codes::KEM);
    assert_eq!(c.on_packet(&p), Err(ProtocolError::UnknownAlgorithm));
}

#[test]
fn initiator_ignores_other_packets() {
    let mut c = SelectionCollector::new();
    let p = pack_as_vect(vec![1], codes::UTF8, codes::HELLO);
    assert_eq!(c.on_packet(&p), Ok(Step::Ignored));
}
