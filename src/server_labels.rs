use vstd::prelude::*;
use crate::codes;

verus! {

broadcast use vstd::string::group_string_axioms;

/// The printable name of the packets a responder or a secondary party handles.
pub open spec fn label(i: u8) -> Seq<char> {
    if i == codes::KEM {
        "KEM"@
    } else if i == codes::KDF {
        "KDF"@
    } else if i == codes::AEAD {
        "AEAD"@
    } else if i == codes::PUBKEY {
        "PublicKey"@
    } else if i == codes::ENCKEY {
        "EncKey"@
    } else if i == codes::CIPHERTEXT {
        "CipherText"@
    } else if i == codes::PSK {
        "PSK"@
    } else if i == codes::PSK_ID {
        "PSK ID"@
    } else if i == codes::ASSOCIATED_DATA {
        "Associated Data"@
    } else if i == codes::SECRET {
        "Secret"@
    } else if i == codes::SHSEC {
        "Shared Secret"@
    } else if i == codes::HELLO {
        "Hello"@
    } else {
        "Unknown"@
    }
}

/// The printable name of a packet identifier.
pub fn int_to_datatype_display(i: u8) -> (r: String)
    ensures
        r@ == label(i),
{
    if i == codes::KEM {
        "KEM".to_string()
    } else if i == codes::KDF {
        "KDF".to_string()
    } else if i == codes::AEAD {
        "AEAD".to_string()
    } else if i == codes::PUBKEY {
        "PublicKey".to_string()
    } else if i == codes::ENCKEY {
        "EncKey".to_string()
    } else if i == codes::CIPHERTEXT {
        "CipherText".to_string()
    } else if i == codes::PSK {
        "PSK".to_string()
    } else if i == codes::PSK_ID {
        "PSK ID".to_string()
    } else if i == codes::ASSOCIATED_DATA {
        "Associated Data".to_string()
    } else if i == codes::SECRET {
        "Secret".to_string()
    } else if i == codes::SHSEC {
        "Shared Secret".to_string()
    } else if i == codes::HELLO {
        "Hello".to_string()
    } else {
        "Unknown".to_string()
    }
}

} // verus!
