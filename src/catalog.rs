use vstd::prelude::*;
use crate::algorithms::{AeadAlg, KdfAlg, KemAlg};

verus! {

/// The KEMs this endpoint supports, in order of preference.
pub fn supported_kem_algs() -> (r: Vec<KemAlg>)
    ensures
        r@ == seq![KemAlg::X25519HkdfSha256, KemAlg::DhP256HkdfSha256],
{
    let mut v: Vec<KemAlg> = Vec::new();
    v.push(KemAlg::X25519HkdfSha256);
    v.push(KemAlg::DhP256HkdfSha256);
    assert(v@ =~= seq![KemAlg::X25519HkdfSha256, KemAlg::DhP256HkdfSha256]);
    v
}

/// The KDFs this endpoint supports, in order of preference.
pub fn supported_kdf_algs() -> (r: Vec<KdfAlg>)
    ensures
        r@ == seq![KdfAlg::HkdfSha256, KdfAlg::HkdfSha384, KdfAlg::HkdfSha512],
{
    let mut v: Vec<KdfAlg> = Vec::new();
    v.push(KdfAlg::HkdfSha256);
    v.push(KdfAlg::HkdfSha384);
    v.push(KdfAlg::HkdfSha512);
    assert(v@ =~= seq![KdfAlg::HkdfSha256, KdfAlg::HkdfSha384, KdfAlg::HkdfSha512]);
    v
}

/// The AEADs this endpoint supports, in order of preference.
pub fn supported_aead_algs() -> (r: Vec<AeadAlg>)
    ensures
        r@ == seq![AeadAlg::AesGcm128, AeadAlg::AesGcm256, AeadAlg::ChaCha20Poly1305],
{
    let mut v: Vec<AeadAlg> = Vec::new();
    v.push(AeadAlg::AesGcm128);
    v.push(AeadAlg::AesGcm256);
    v.push(AeadAlg::ChaCha20Poly1305);
    assert(v@ =~= seq![AeadAlg::AesGcm128, AeadAlg::AesGcm256, AeadAlg::ChaCha20Poly1305]);
    v
}

} // verus!
