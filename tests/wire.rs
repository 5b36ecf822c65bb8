use cs_hpke::codes;
use cs_hpke::errors::ProtocolError;
use cs_hpke::wire::{
    buf_to_vect, check_ack, create_pack, decode_packet, pack_as_vect, read_bytes_payload,
    read_u16_payload, u16_to_vec_be, u16s_to_vec_be, WirePacket,
};

#[test]
fn pack_as_vect_lays_out_header_then_payload() {
    let p = pack_as_vect(vec![1, 2], codes::UTF8, codes::KEM);
    assert_eq!(p, vec![3, 11, 2, 1, 2]);
}

#[test]
fn create_pack_then_group_matches_pack_as_vect() {
    let g = create_pack(codes::UTF16, codes::AEAD, vec![0, 3]).group();
    assert_eq!(g, vec![codes::AEAD, codes::UTF16, 2, 0, 3]);
}

#[test]
fn decode_of_encode_round_trips() {
    for payload in [vec![], vec![7u8], (0..=254u8).collect::<Vec<u8>>()] {
        let bytes = pack_as_vect(payload.clone(), codes::UTF8, codes::CIPHERTEXT);
        let p = decode_packet(&bytes).unwrap();
        assert_eq!(
            p,
            WirePacket { id: codes::CIPHERTEXT, encoding: codes::UTF8, payload: payload.clone() }
        );
    }
}

#[test]
fn largest_payload_round_trips() {
    let payload: Vec<u8> = (0..255u32).map(|i| (i % 251) as u8).collect();
    let bytes = pack_as_vect(payload.clone(), codes::UTF8, codes::PUBKEY);
    assert_eq!(bytes.len(), 258);
    assert_eq!(bytes[2], 255);
    assert_eq!(read_bytes_payload(&bytes).unwrap(), payload);
}

#[test]
fn decode_ignores_trailing_bytes() {
    let mut buf = pack_as_vect(vec![9, 8], codes::UTF8, codes::PSK);
    buf.extend_from_slice(&[0; 20]);
    assert_eq!(decode_packet(&buf).unwrap().payload, vec![9, 8]);
}

#[test]
fn truncated_buffers_are_malformed() {
    assert_eq!(decode_packet(&[3, 11]), Err(ProtocolError::MalformedPacket));
    assert_eq!(decode_packet(&[3, 11, 4, 1, 2]), Err(ProtocolError::MalformedPacket));
}

#[test]
fn empty_payload_is_refused() {
    let buf = pack_as_vect(vec![], codes::UTF8, codes::PUBKEY);
    assert_eq!(read_bytes_payload(&buf), Err(ProtocolError::EmptyPayload));
    let buf = pack_as_vect(vec![], codes::UTF16, codes::KEM);
    assert_eq!(read_u16_payload(&buf), Err(ProtocolError::EmptyPayload));
}

#[test]
fn wrong_encoding_is_refused() {
    let buf = pack_as_vect(vec![0, 1], codes::UTF16, codes::PUBKEY);
    assert_eq!(read_bytes_payload(&buf), Err(ProtocolError::WrongEncoding));
    let buf = pack_as_vect(vec![0, 1], codes::UTF8, codes::KEM);
    assert_eq!(read_u16_payload(&buf), Err(ProtocolError::WrongEncoding));
}

#[test]
fn odd_sixteen_bit_payload_is_malformed() {
    let buf = pack_as_vect(vec![0, 1, 2], codes::UTF16, codes::KEM);
    assert_eq!(read_u16_payload(&buf), Err(ProtocolError::MalformedPacket));
}

#[test]
fn sixteen_bit_payload_is_big_endian() {
    let buf = [codes::KEM, codes::UTF16, 4, 0x00, 0x20, 0x01, 0x10];
    assert_eq!(read_u16_payload(&buf).unwrap(), vec![0x0020, 0x0110]);
}

#[test]
fn u16_to_vec_be_puts_high_byte_first() {
    assert_eq!(u16_to_vec_be(0x0102), vec![1, 2]);
    assert_eq!(u16_to_vec_be(0xFFFF), vec![255, 255]);
    assert_eq!(u16s_to_vec_be(&vec![0x0010, 0xABCD]), vec![0x00, 0x10, 0xAB, 0xCD]);
}

#[test]
fn u16_values_round_trip_through_a_packet() {
    let values = vec![0x0001u16, 0x0203, 0xFFFE];
    let buf = pack_as_vect(u16s_to_vec_be(&values), codes::UTF16, codes::KDF);
    assert_eq!(read_u16_payload(&buf).unwrap(), values);
}

#[test]
fn buf_to_vect_appends_the_payload() {
    let mut v = vec![42];
    let buf = pack_as_vect(vec![1, 2, 3], codes::UTF8, codes::ENCKEY);
    buf_to_vect(&mut v, &buf);
    assert_eq!(v, vec![42, 1, 2, 3]);
    let empty = pack_as_vect(vec![], codes::UTF8, codes::ENCKEY);
    buf_to_vect(&mut v, &empty);
    assert_eq!(v, vec![42, 1, 2, 3]);
}

#[test]
fn only_a_single_received_byte_acknowledges() {
    assert_eq!(check_ack(&[codes::RECEIVED]), Ok(()));
    assert_eq!(check_ack(&[codes::RET_ERROR]), Err(ProtocolError::NotAcknowledged));
    assert_eq!(check_ack(&[]), Err(ProtocolError::NotAcknowledged));
    assert_eq!(check_ack(&[0, 0]), Err(ProtocolError::NotAcknowledged));
}
