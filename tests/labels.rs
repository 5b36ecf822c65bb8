use cs_hpke::catalog::{supported_aead_algs, supported_kdf_algs, supported_kem_algs};
use cs_hpke::algorithms::{AeadAlg, KdfAlg, KemAlg};
use cs_hpke::ciphersuite_client::{AEADtypeS, KDFtypeS, KEMtypeS};
use cs_hpke::ciphersuite_server::{AEADtypeR, KDFtypeR, KEMtypeR};
use cs_hpke::client_packets::{data_type_int, DataPacket, DataType as ClientDataType};
use cs_hpke::codes;
use cs_hpke::errors::ProtocolError;
use cs_hpke::server_packets::{
    create_packet, datatype_to_int, int_to_datatype, DataType as ServerDataType,
};
use cs_hpke::{client_labels, server_labels, server_packets};

#[test]
fn catalog_lists_every_supported_algorithm() {
    assert_eq!(supported_kem_algs(), vec![KemAlg::X25519HkdfSha256, KemAlg::DhP256HkdfSha256]);
    assert_eq!(
        supported_kdf_algs(),
        vec![KdfAlg::HkdfSha256, KdfAlg::HkdfSha384, KdfAlg::HkdfSha512]
    );
    assert_eq!(
        supported_aead_algs(),
        vec![AeadAlg::AesGcm128, AeadAlg::AesGcm256, AeadAlg::ChaCha20Poly1305]
    );
}

#[test]
fn client_type_names() {
    assert_eq!(KEMtypeS::to_vect(), vec!["0x0010", "0x0020"]);
    assert_eq!(KDFtypeS::to_vect(), vec!["0x0001", "0x0002", "0x0003"]);
    assert_eq!(AEADtypeS::to_vect(), vec!["0x0001", "0x0002", "0x0003", "0xFFFF"]);
    assert_eq!(AEADtypeS::ExportOnlyAead.to_string(), "0xFFFF");
}

#[test]
fn server_type_names() {
    assert_eq!(KEMtypeR::to_vect(), vec!["0x0010"]);
    assert_eq!(KDFtypeR::to_vect(), vec!["0x0001", "0x0003"]);
    assert_eq!(AEADtypeR::to_vect(), vec!["0x0001"]);
}

#[test]
fn client_labels_name_packet_ids() {
    assert_eq!(client_labels::int_to_datatype_display(codes::KEM), "KEM");
    assert_eq!(client_labels::int_to_datatype_display(codes::PUBKEY), "PublicKey");
    assert_eq!(client_labels::int_to_datatype_display(codes::CIPHERTEXT), "CipherText");
    assert_eq!(client_labels::int_to_datatype_display(codes::PSK), "Unknown");
}

#[test]
fn server_labels_name_packet_ids() {
    assert_eq!(server_labels::int_to_datatype_display(codes::ENCKEY), "EncKey");
    assert_eq!(server_labels::int_to_datatype_display(codes::PSK_ID), "PSK ID");
    assert_eq!(server_labels::int_to_datatype_display(codes::ASSOCIATED_DATA), "Associated Data");
    assert_eq!(server_labels::int_to_datatype_display(codes::SHSEC), "Shared Secret");
    assert_eq!(server_labels::int_to_datatype_display(codes::HELLO), "Hello");
    assert_eq!(server_labels::int_to_datatype_display(200), "Unknown");
}

#[test]
fn client_data_types_and_packets() {
    assert_eq!(data_type_int(ClientDataType::EncappedKey(vec![1])), 1);
    assert_eq!(data_type_int(ClientDataType::TagBytes(vec![])), 4);
    let p = DataPacket { header: 2, payload: vec![9, 9] };
    assert_eq!(p.group(), vec![2, 9, 9]);
}

#[test]
fn server_data_types_round_trip() {
    for i in 0u8..8 {
        assert_eq!(datatype_to_int(&int_to_datatype(i).unwrap()), i);
    }
    assert_eq!(int_to_datatype(7), Ok(ServerDataType::Enc_ctx_AEAD));
    assert_eq!(int_to_datatype(8), Err(ProtocolError::MalformedPacket));
    assert_eq!(int_to_datatype(200), Err(ProtocolError::MalformedPacket));
    assert_eq!(server_packets::int_to_datatype_display(2), "CipherText");
    assert_eq!(server_packets::int_to_datatype_display(7), "Enc_ctx_AEAD");
    assert_eq!(server_packets::int_to_datatype_display(9), "Unknown");
    let p = create_packet(ServerDataType::AssociatedData, vec![5, 6, 7]);
    assert_eq!(p.group(), vec![3, 3, 5, 6, 7]);
}
