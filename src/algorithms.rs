use vstd::prelude::*;
use crate::errors::ProtocolError;

verus! {

/// Key encapsulation mechanisms the agility layer can instantiate.
#[derive(Clone, Copy, Debug, PartialEq, Eq, Structural)]
pub enum KemAlg {
    X25519HkdfSha256,
    DhP256HkdfSha256,
}

/// Key derivation functions the agility layer can instantiate.
#[derive(Clone, Copy, Debug, PartialEq, Eq, Structural)]
pub enum KdfAlg {
    HkdfSha256,
    HkdfSha384,
    HkdfSha512,
}

/// AEAD ciphers the agility layer can instantiate.
#[derive(Clone, Copy, Debug, PartialEq, Eq, Structural)]
pub enum AeadAlg {
    AesGcm128,
    AesGcm256,
    ChaCha20Poly1305,
}

/// The algorithm triple agreed for one connection.
#[derive(Clone, Copy, Debug, PartialEq, Eq, Structural)]
pub struct CipherSuite {
    pub kem: KemAlg,
    pub kdf: KdfAlg,
    pub aead: AeadAlg,
}

/// Wire code of a KEM (RFC 9180 identifiers).
pub open spec fn kem_code(k: KemAlg) -> u16 {
    match k {
        KemAlg::DhP256HkdfSha256 => 0x0010,
        KemAlg::X25519HkdfSha256 => 0x0020,
    }
}

pub open spec fn kem_from_code(c: u16) -> Option<KemAlg> {
    if c == 0x0010 {
        Some(KemAlg::DhP256HkdfSha256)
    } else if c == 0x0020 {
        Some(KemAlg::X25519HkdfSha256)
    } else {
        None
    }
}

pub open spec fn kdf_code(k: KdfAlg) -> u16 {
    match k {
        KdfAlg::HkdfSha256 => 0x0001,
        KdfAlg::HkdfSha384 => 0x0002,
        KdfAlg::HkdfSha512 => 0x0003,
    }
}

pub open spec fn kdf_from_code(c: u16) -> Option<KdfAlg> {
    if c == 0x0001 {
        Some(KdfAlg::HkdfSha256)
    } else if c == 0x0002 {
        Some(KdfAlg::HkdfSha384)
    } else if c == 0x0003 {
        Some(KdfAlg::HkdfSha512)
    } else {
        None
    }
}

pub open spec fn aead_code(a: AeadAlg) -> u16 {
    match a {
        AeadAlg::AesGcm128 => 0x0001,
        AeadAlg::AesGcm256 => 0x0002,
        AeadAlg::ChaCha20Poly1305 => 0x0003,
    }
}

pub open spec fn aead_from_code(c: u16) -> Option<AeadAlg> {
    if c == 0x0001 {
        Some(AeadAlg::AesGcm128)
    } else if c == 0x0002 {
        Some(AeadAlg::AesGcm256)
    } else if c == 0x0003 {
        Some(AeadAlg::ChaCha20Poly1305)
    } else {
        None
    }
}

/// Native output length of a KDF, in bytes.
pub open spec fn kdf_output_len(k: KdfAlg) -> nat {
    match k {
        KdfAlg::HkdfSha256 => 32,
        KdfAlg::HkdfSha384 => 48,
        KdfAlg::HkdfSha512 => 64,
    }
}

/// Length of a serialized public key, and of an encapsulated key, for a KEM.
pub open spec fn kem_public_key_len(k: KemAlg) -> nat {
    match k {
        KemAlg::X25519HkdfSha256 => 32,
        KemAlg::DhP256HkdfSha256 => 65,
    }
}

/// Length of a serialized private key for a KEM.
pub open spec fn kem_private_key_len(k: KemAlg) -> nat {
    32
}

/// Length of the shared secret a KEM produces.
pub open spec fn kem_secret_len(k: KemAlg) -> nat {
    32
}

/// The code of every algorithm decodes back to it, and a code decodes only to the
/// algorithm that has it: the mapping between codes and variants is total and injective.
pub proof fn lemma_codes_round_trip(kem: KemAlg, kdf: KdfAlg, aead: AeadAlg, c: u16)
    ensures
        kem_from_code(kem_code(kem)) == Some(kem),
        kdf_from_code(kdf_code(kdf)) == Some(kdf),
        aead_from_code(aead_code(aead)) == Some(aead),
        kem_from_code(c) is Some ==> kem_code(kem_from_code(c)->0) == c,
        kdf_from_code(c) is Some ==> kdf_code(kdf_from_code(c)->0) == c,
        aead_from_code(c) is Some ==> aead_code(aead_from_code(c)->0) == c,
{
}

impl KemAlg {
    pub fn to_u16(self) -> (r: u16)
        ensures
            r == kem_code(self),
    {
        match self {
            KemAlg::DhP256HkdfSha256 => 0x0010,
            KemAlg::X25519HkdfSha256 => 0x0020,
        }
    }

    pub fn try_from_u16(id: u16) -> (r: Result<KemAlg, ProtocolError>)
        ensures
            match kem_from_code(id) {
                Some(k) => r == Ok::<KemAlg, ProtocolError>(k),
                None => r == Err::<KemAlg, ProtocolError>(ProtocolError::UnknownAlgorithm),
            },
    {
        if id == 0x0010 {
            Ok(KemAlg::DhP256HkdfSha256)
        } else if id == 0x0020 {
            Ok(KemAlg::X25519HkdfSha256)
        } else {
            Err(ProtocolError::UnknownAlgorithm)
        }
    }

    pub fn public_key_len(self) -> (r: usize)
        ensures
            r == kem_public_key_len(self),
    {
        match self {
            KemAlg::X25519HkdfSha256 => 32,
            KemAlg::DhP256HkdfSha256 => 65,
        }
    }

    pub fn private_key_len(self) -> (r: usize)
        ensures
            r == kem_private_key_len(self),
    {
        32
    }
}

impl KdfAlg {
    pub fn to_u16(self) -> (r: u16)
        ensures
            r == kdf_code(self),
    {
        match self {
            KdfAlg::HkdfSha256 => 0x0001,
            KdfAlg::HkdfSha384 => 0x0002,
            KdfAlg::HkdfSha512 => 0x0003,
        }
    }

    pub fn try_from_u16(id: u16) -> (r: Result<KdfAlg, ProtocolError>)
        ensures
            match kdf_from_code(id) {
                Some(k) => r == Ok::<KdfAlg, ProtocolError>(k),
                None => r == Err::<KdfAlg, ProtocolError>(ProtocolError::UnknownAlgorithm),
            },
    {
        if id == 0x0001 {
            Ok(KdfAlg::HkdfSha256)
        } else if id == 0x0002 {
            Ok(KdfAlg::HkdfSha384)
        } else if id == 0x0003 {
            Ok(KdfAlg::HkdfSha512)
        } else {
            Err(ProtocolError::UnknownAlgorithm)
        }
    }

    pub fn get_digest_len(self) -> (r: usize)
        ensures
            r == kdf_output_len(self),
    {
        match self {
            KdfAlg::HkdfSha256 => 32,
            KdfAlg::HkdfSha384 => 48,
            KdfAlg::HkdfSha512 => 64,
        }
    }
}

impl AeadAlg {
    pub fn to_u16(self) -> (r: u16)
        ensures
            r == aead_code(self),
    {
        match self {
            AeadAlg::AesGcm128 => 0x0001,
            AeadAlg::AesGcm256 => 0x0002,
            AeadAlg::ChaCha20Poly1305 => 0x0003,
        }
    }

    pub fn try_from_u16(id: u16) -> (r: Result<AeadAlg, ProtocolError>)
        ensures
            match aead_from_code(id) {
                Some(a) => r == Ok::<AeadAlg, ProtocolError>(a),
                None => r == Err::<AeadAlg, ProtocolError>(ProtocolError::UnknownAlgorithm),
            },
    {
        if id == 0x0001 {
            Ok(AeadAlg::AesGcm128)
        } else if id == 0x0002 {
            Ok(AeadAlg::AesGcm256)
        } else if id == 0x0003 {
            Ok(AeadAlg::ChaCha20Poly1305)
        } else {
            Err(ProtocolError::UnknownAlgorithm)
        }
    }
}

} // verus!
