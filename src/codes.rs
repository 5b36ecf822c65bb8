use vstd::prelude::*;

verus! {

/// Acknowledgment byte for a received packet.
pub const RECEIVED: u8 = 0;
/// End of the list of offered algorithms.
pub const FINISH: u8 = 1;
/// Returned by a sender whose packet was not acknowledged.
pub const RET_ERROR: u8 = 2;
/// Packet identifiers.
pub const KEM: u8 = 3;
pub const KDF: u8 = 4;
pub const AEAD: u8 = 5;
pub const PUBKEY: u8 = 6;
pub const ENCKEY: u8 = 7;
pub const CIPHERTEXT: u8 = 8;
pub const ASSOCIATED_DATA: u8 = 9;
pub const TAGBYTES: u8 = 10;
/// Payload encodings: raw bytes, or big-endian 16-bit elements.
pub const UTF8: u8 = 11;
pub const UTF16: u8 = 12;
/// More packet identifiers.
pub const PSK: u8 = 13;
pub const PSK_ID: u8 = 14;
pub const SECRET: u8 = 15;
pub const SHSEC: u8 = 16;
pub const HELLO: u8 = 17;
/// Connection types announced in a `HELLO` packet.
pub const PC: u8 = 20;
pub const SC: u8 = 21;
pub const SS: u8 = 22;
/// Abort signal of the negotiation.
pub const BREAK_CONNECTION: u8 = 99;

} // verus!
