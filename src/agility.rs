use vstd::prelude::*;
use hpke::kem::{DhP256HkdfSha256, X25519HkdfSha256};
use hpke::{Deserializable, Kem, Serializable};
use crate::algorithms::{
    kdf_output_len, kem_private_key_len, kem_public_key_len, kem_secret_len, KdfAlg, KemAlg,
};
use crate::errors::ProtocolError;

verus! {

#[verifier::external_type_specification]
#[verifier::external_body]
pub struct ExHpkeError(hpke::HpkeError);

#[verifier::external_type_specification]
#[verifier::external_body]
pub struct ExStdRng(rand::rngs::StdRng);

/// A public key: its bytes, tagged with the KEM that produced them.
#[derive(Clone, Debug)]
pub struct AgilePublicKey {
    pub kem_alg: KemAlg,
    pub pubkey_bytes: Vec<u8>,
}

/// A private key: its bytes, tagged with the KEM that produced them.
#[derive(Clone, Debug)]
pub struct AgilePrivateKey {
    pub kem_alg: KemAlg,
    pub privkey_bytes: Vec<u8>,
}

/// A key pair: private half, then public half.
#[derive(Clone, Debug)]
pub struct AgileKeypair(pub AgilePrivateKey, pub AgilePublicKey);

/// The encapsulated key a sender transmits to the receiver.
#[derive(Clone, Debug)]
pub struct AgileEncappedKey {
    pub kem_alg: KemAlg,
    pub encapped_key_bytes: Vec<u8>,
}

/// A pre-shared key and its identifier.
#[derive(Clone, Debug)]
pub struct AgilePskBundle {
    pub psk: Vec<u8>,
    pub psk_id: Vec<u8>,
}

/// The sender's operation mode, with the data each mode requires.
#[derive(Clone, Debug)]
pub enum AgileOpModeSTy {
    Base,
    Psk(AgilePskBundle),
    Auth(AgileKeypair),
    AuthPsk(AgileKeypair, AgilePskBundle),
}

#[derive(Clone, Debug)]
pub struct AgileOpModeS {
    pub kem_alg: KemAlg,
    pub op_mode_ty: AgileOpModeSTy,
}

/// The receiver's operation mode, with the data each mode requires.
#[derive(Clone, Debug)]
pub enum AgileOpModeRTy {
    Base,
    Psk(AgilePskBundle),
    Auth(AgilePublicKey),
    AuthPsk(AgilePublicKey, AgilePskBundle),
}

#[derive(Clone, Debug)]
pub struct AgileOpModeR {
    pub kem_alg: KemAlg,
    pub op_mode_ty: AgileOpModeRTy,
}

/// A public key that can stand for `kem`: tagged with it and of its length.
pub open spec fn public_key_fits(pk: AgilePublicKey, kem: KemAlg) -> bool {
    pk.kem_alg == kem && pk.pubkey_bytes@.len() == kem_public_key_len(kem)
}

/// A key pair that can stand for `kem`.
pub open spec fn keypair_fits(kp: AgileKeypair, kem: KemAlg) -> bool {
    &&& kp.0.kem_alg == kem
    &&& kp.0.privkey_bytes@.len() == kem_private_key_len(kem)
    &&& public_key_fits(kp.1, kem)
}

/// The check of a public key against the KEM in use: a wrong tag is a mismatch, a wrong
/// length a deserialization failure.
pub open spec fn public_key_check(pk: AgilePublicKey, kem: KemAlg) -> Result<(), ProtocolError> {
    if pk.kem_alg != kem {
        Err(ProtocolError::AlgorithmMismatch)
    } else if pk.pubkey_bytes@.len() != kem_public_key_len(kem) {
        Err(ProtocolError::KeyDeserialization)
    } else {
        Ok(())
    }
}

pub open spec fn keypair_check(kp: AgileKeypair, kem: KemAlg) -> Result<(), ProtocolError> {
    if kp.0.kem_alg != kem || kp.1.kem_alg != kem {
        Err(ProtocolError::AlgorithmMismatch)
    } else if kp.0.privkey_bytes@.len() != kem_private_key_len(kem) || kp.1.pubkey_bytes@.len()
        != kem_public_key_len(kem) {
        Err(ProtocolError::KeyDeserialization)
    } else {
        Ok(())
    }
}

pub open spec fn psk_check(b: AgilePskBundle, kdf: KdfAlg) -> Result<(), ProtocolError> {
    if b.psk@.len() != kdf_output_len(kdf) {
        Err(ProtocolError::PskLength)
    } else {
        Ok(())
    }
}

/// The check of a sender's mode against the suite in use.
pub open spec fn mode_s_check(mode: AgileOpModeS, kem: KemAlg, kdf: KdfAlg) -> Result<
    (),
    ProtocolError,
> {
    if mode.kem_alg != kem {
        Err(ProtocolError::AlgorithmMismatch)
    } else {
        match mode.op_mode_ty {
            AgileOpModeSTy::Base => Ok(()),
            AgileOpModeSTy::Psk(b) => psk_check(b, kdf),
            AgileOpModeSTy::Auth(kp) => keypair_check(kp, kem),
            AgileOpModeSTy::AuthPsk(kp, b) => match keypair_check(kp, kem) {
                Ok(()) => psk_check(b, kdf),
                Err(e) => Err(e),
            },
        }
    }
}

/// The check of a receiver's mode against the suite in use.
pub open spec fn mode_r_check(mode: AgileOpModeR, kem: KemAlg, kdf: KdfAlg) -> Result<
    (),
    ProtocolError,
> {
    if mode.kem_alg != kem {
        Err(ProtocolError::AlgorithmMismatch)
    } else {
        match mode.op_mode_ty {
            AgileOpModeRTy::Base => Ok(()),
            AgileOpModeRTy::Psk(b) => psk_check(b, kdf),
            AgileOpModeRTy::Auth(pk) => public_key_check(pk, kem),
            AgileOpModeRTy::AuthPsk(pk, b) => match public_key_check(pk, kem) {
                Ok(()) => psk_check(b, kdf),
                Err(e) => Err(e),
            },
        }
    }
}

/// Everything a primary sender checks before encapsulating.
pub open spec fn sender_check(
    kem: KemAlg,
    kdf: KdfAlg,
    mode: AgileOpModeS,
    pk_recip: AgilePublicKey,
) -> Result<(), ProtocolError> {
    match mode_s_check(mode, kem, kdf) {
        Ok(()) => public_key_check(pk_recip, kem),
        Err(e) => Err(e),
    }
}

/// Everything a primary receiver checks before decapsulating.
pub open spec fn receiver_check(
    kem: KemAlg,
    kdf: KdfAlg,
    mode: AgileOpModeR,
    keypair: AgileKeypair,
    enc: AgileEncappedKey,
) -> Result<(), ProtocolError> {
    match mode_r_check(mode, kem, kdf) {
        Ok(()) => match keypair_check(keypair, kem) {
            Ok(()) => if enc.kem_alg != kem {
                Err(ProtocolError::AlgorithmMismatch)
            } else if enc.encapped_key_bytes@.len() != kem_public_key_len(kem) {
                Err(ProtocolError::KeyDeserialization)
            } else {
                Ok(())
            },
            Err(e) => Err(e),
        },
        Err(e) => Err(e),
    }
}

/// The serialized public key of a serialized X25519 private key: `PrivateKey::from_bytes`,
/// then `Kem::sk_to_pk`; `None` when the bytes are refused.
pub uninterp spec fn x25519_public_key_of(sk: Seq<u8>) -> Option<Seq<u8>>;

/// The serialized public key of a serialized P-256 private key: `PrivateKey::from_bytes`,
/// then `Kem::sk_to_pk`; `None` when the bytes are refused.
pub uninterp spec fn p256_public_key_of(sk: Seq<u8>) -> Option<Seq<u8>>;

/// What X25519 decapsulation yields for a private key, an optional sender public key and an
/// encapsulated key, all serialized: the shared secret, or `None` when it fails.
pub uninterp spec fn x25519_decap_of(sk: Seq<u8>, pk_sender: Option<Seq<u8>>, enc: Seq<u8>) -> Option<Seq<u8>>;

/// What P-256 decapsulation yields for a private key, an optional sender public key and an
/// encapsulated key, all serialized: the shared secret, or `None` when it fails.
pub uninterp spec fn p256_decap_of(sk: Seq<u8>, pk_sender: Option<Seq<u8>>, enc: Seq<u8>) -> Option<Seq<u8>>;

pub open spec fn slice_opt_view(o: Option<&[u8]>) -> Option<Seq<u8>> {
    match o {
        Some(b) => Some(b@),
        None => None,
    }
}

/// The sender's public key of an optional sender key pair.
pub open spec fn sender_pk_view(sender: Option<(&[u8], &[u8])>) -> Option<Seq<u8>> {
    match sender {
        Some((_, pk)) => Some(pk@),
        None => None,
    }
}

/// Relies on `<X25519HkdfSha256 as Kem>::gen_keypair`: a random key pair whose public key is
/// `sk_to_pk` of its private key, serialized with `to_bytes` (32 bytes each).
#[verifier::external_body]
fn x25519_gen_keypair(rng: &mut rand::rngs::StdRng) -> (r: (Vec<u8>, Vec<u8>))
    ensures
        r.0@.len() == 32,
        r.1@.len() == 32,
        x25519_public_key_of(r.0@) == Some(r.1@),
{
    let (sk, pk) = X25519HkdfSha256::gen_keypair(rng);
    (sk.to_bytes().to_vec(), pk.to_bytes().to_vec())
}

/// Relies on `<DhP256HkdfSha256 as Kem>::gen_keypair`: a random key pair whose public key is
/// `sk_to_pk` of its private key, serialized with `to_bytes` (32-byte private key, 65-byte
/// uncompressed public key).
#[verifier::external_body]
fn p256_gen_keypair(rng: &mut rand::rngs::StdRng) -> (r: (Vec<u8>, Vec<u8>))
    ensures
        r.0@.len() == 32,
        r.1@.len() == 65,
        p256_public_key_of(r.0@) == Some(r.1@),
{
    let (sk, pk) = DhP256HkdfSha256::gen_keypair(rng);
    (sk.to_bytes().to_vec(), pk.to_bytes().to_vec())
}

/// Relies on `<X25519HkdfSha256 as Kem>::encap` after `from_bytes` on the keys: keys of a
/// length other than 32 bytes are refused; on success the shared secret and the
/// encapsulated key are 32 bytes each, and (when the sender's public key is that of its
/// private key) decapsulation with any private key of `pk_recip` yields the same secret.
#[verifier::external_body]
fn x25519_encap(
    pk_recip: &[u8],
    sender: Option<(&[u8], &[u8])>,
    rng: &mut rand::rngs::StdRng,
) -> (r: Result<(Vec<u8>, Vec<u8>), hpke::HpkeError>)
    ensures
        pk_recip@.len() != 32 ==> r is Err,
        r matches Ok((ss, enc)) ==> ss@.len() == 32 && enc@.len() == 32,
        r matches Ok((ss, enc)) ==> (match sender {
            Some((s, p)) => x25519_public_key_of(s@) == Some(p@),
            None => true,
        }) ==> forall|sk: Seq<u8>| #[trigger]
            x25519_public_key_of(sk) == Some(pk_recip@) ==> x25519_decap_of(
                sk,
                sender_pk_view(sender),
                enc@,
            ) == Some(ss@),
{
    let pk = <X25519HkdfSha256 as Kem>::PublicKey::from_bytes(pk_recip)?;
    let id = match sender {
        Some((sk, spk)) => Some((
            <X25519HkdfSha256 as Kem>::PrivateKey::from_bytes(sk)?,
            <X25519HkdfSha256 as Kem>::PublicKey::from_bytes(spk)?,
        )),
        None => None,
    };
    let (ss, enc) = X25519HkdfSha256::encap(&pk, id.as_ref().map(|(a, b)| (a, b)), rng)?;
    Ok((ss.0.to_vec(), enc.to_bytes().to_vec()))
}

/// Relies on `<DhP256HkdfSha256 as Kem>::encap` after `from_bytes` on the keys: a public
/// key of a length other than 65 bytes is refused; on success the shared secret is 32
/// bytes and the encapsulated key 65, and (when the sender's public key is that of its
/// private key) decapsulation with any private key of `pk_recip` yields the same secret.
#[verifier::external_body]
fn p256_encap(
    pk_recip: &[u8],
    sender: Option<(&[u8], &[u8])>,
    rng: &mut rand::rngs::StdRng,
) -> (r: Result<(Vec<u8>, Vec<u8>), hpke::HpkeError>)
    ensures
        pk_recip@.len() != 65 ==> r is Err,
        r matches Ok((ss, enc)) ==> ss@.len() == 32 && enc@.len() == 65,
        r matches Ok((ss, enc)) ==> (match sender {
            Some((s, p)) => p256_public_key_of(s@) == Some(p@),
            None => true,
        }) ==> forall|sk: Seq<u8>| #[trigger]
            p256_public_key_of(sk) == Some(pk_recip@) ==> p256_decap_of(
                sk,
                sender_pk_view(sender),
                enc@,
            ) == Some(ss@),
{
    let pk = <DhP256HkdfSha256 as Kem>::PublicKey::from_bytes(pk_recip)?;
    let id = match sender {
        Some((sk, spk)) => Some((
            <DhP256HkdfSha256 as Kem>::PrivateKey::from_bytes(sk)?,
            <DhP256HkdfSha256 as Kem>::PublicKey::from_bytes(spk)?,
        )),
        None => None,
    };
    let (ss, enc) = DhP256HkdfSha256::encap(&pk, id.as_ref().map(|(a, b)| (a, b)), rng)?;
    Ok((ss.0.to_vec(), enc.to_bytes().to_vec()))
}

/// Relies on `<X25519HkdfSha256 as Kem>::decap` after `from_bytes` on its inputs: the
/// result depends on the three inputs alone; an encapsulated key of a length other than 32
/// bytes is refused; a shared secret is 32 bytes.
#[verifier::external_body]
fn x25519_decap(sk_recip: &[u8], pk_sender: Option<&[u8]>, enc: &[u8]) -> (r: Result<
    Vec<u8>,
    hpke::HpkeError,
>)
    ensures
        enc@.len() != 32 ==> r is Err,
        r is Ok <==> x25519_decap_of(sk_recip@, slice_opt_view(pk_sender), enc@) is Some,
        r matches Ok(ss) ==> Some(ss@) == x25519_decap_of(
            sk_recip@,
            slice_opt_view(pk_sender),
            enc@,
        ) && ss@.len() == 32,
{
    let sk = <X25519HkdfSha256 as Kem>::PrivateKey::from_bytes(sk_recip)?;
    let enc = <X25519HkdfSha256 as Kem>::EncappedKey::from_bytes(enc)?;
    let pk = match pk_sender {
        Some(b) => Some(<X25519HkdfSha256 as Kem>::PublicKey::from_bytes(b)?),
        None => None,
    };
    let ss = X25519HkdfSha256::decap(&sk, pk.as_ref(), &enc)?;
    Ok(ss.0.to_vec())
}

/// Relies on `<DhP256HkdfSha256 as Kem>::decap` after `from_bytes` on its inputs: the
/// result depends on the three inputs alone; an encapsulated key of a length other than 65
/// bytes is refused; a shared secret is 32 bytes.
#[verifier::external_body]
fn p256_decap(sk_recip: &[u8], pk_sender: Option<&[u8]>, enc: &[u8]) -> (r: Result<
    Vec<u8>,
    hpke::HpkeError,
>)
    ensures
        enc@.len() != 65 ==> r is Err,
        r is Ok <==> p256_decap_of(sk_recip@, slice_opt_view(pk_sender), enc@) is Some,
        r matches Ok(ss) ==> Some(ss@) == p256_decap_of(
            sk_recip@,
            slice_opt_view(pk_sender),
            enc@,
        ) && ss@.len() == 32,
{
    let sk = <DhP256HkdfSha256 as Kem>::PrivateKey::from_bytes(sk_recip)?;
    let enc = <DhP256HkdfSha256 as Kem>::EncappedKey::from_bytes(enc)?;
    let pk = match pk_sender {
        Some(b) => Some(<DhP256HkdfSha256 as Kem>::PublicKey::from_bytes(b)?),
        None => None,
    };
    let ss = DhP256HkdfSha256::decap(&sk, pk.as_ref(), &enc)?;
    Ok(ss.0.to_vec())
}

/// The public key of a serialized private key of `kem`, if the KEM accepts it.
pub open spec fn public_key_of(kem: KemAlg, sk: Seq<u8>) -> Option<Seq<u8>> {
    match kem {
        KemAlg::X25519HkdfSha256 => x25519_public_key_of(sk),
        KemAlg::DhP256HkdfSha256 => p256_public_key_of(sk),
    }
}

/// What decapsulation under `kem` yields.
pub open spec fn decap_of(kem: KemAlg, sk: Seq<u8>, pk_sender: Option<Seq<u8>>, enc: Seq<u8>) -> Option<
    Seq<u8>,
> {
    match kem {
        KemAlg::X25519HkdfSha256 => x25519_decap_of(sk, pk_sender, enc),
        KemAlg::DhP256HkdfSha256 => p256_decap_of(sk, pk_sender, enc),
    }
}

/// The sender key pair a sender's mode authenticates with, if any.
pub open spec fn mode_s_keypair(mode: AgileOpModeS) -> Option<AgileKeypair> {
    match mode.op_mode_ty {
        AgileOpModeSTy::Auth(kp) => Some(kp),
        AgileOpModeSTy::AuthPsk(kp, _) => Some(kp),
        _ => None,
    }
}

/// The sender public key a sender's mode binds into the shared secret, if any.
pub open spec fn mode_s_sender_pk(mode: AgileOpModeS) -> Option<Seq<u8>> {
    match mode_s_keypair(mode) {
        Some(kp) => Some(kp.1.pubkey_bytes@),
        None => None,
    }
}

/// The sender's key pair, if the mode has one, is a genuine pair of `kem`.
pub open spec fn mode_s_genuine(mode: AgileOpModeS, kem: KemAlg) -> bool {
    match mode_s_keypair(mode) {
        Some(kp) => public_key_of(kem, kp.0.privkey_bytes@) == Some(kp.1.pubkey_bytes@),
        None => true,
    }
}

/// The sender public key a receiver's mode expects, if any.
pub open spec fn mode_r_sender_pk(mode: AgileOpModeR) -> Option<Seq<u8>> {
    match mode.op_mode_ty {
        AgileOpModeRTy::Auth(pk) => Some(pk.pubkey_bytes@),
        AgileOpModeRTy::AuthPsk(pk, _) => Some(pk.pubkey_bytes@),
        _ => None,
    }
}

/// A fresh key pair for `kem`, drawn from `csprng`.
pub fn agile_gen_keypair(kem_alg: KemAlg, csprng: &mut rand::rngs::StdRng) -> (r: AgileKeypair)
    ensures
        keypair_fits(r, kem_alg),
        r.1.kem_alg == kem_alg,
        public_key_of(kem_alg, r.0.privkey_bytes@) == Some(r.1.pubkey_bytes@),
{
    let (sk, pk) = match kem_alg {
        KemAlg::X25519HkdfSha256 => x25519_gen_keypair(csprng),
        KemAlg::DhP256HkdfSha256 => p256_gen_keypair(csprng),
    };
    AgileKeypair(
        AgilePrivateKey { kem_alg, privkey_bytes: sk },
        AgilePublicKey { kem_alg, pubkey_bytes: pk },
    )
}

impl AgilePublicKey {
    pub fn check(&self, kem: KemAlg) -> (r: Result<(), ProtocolError>)
        ensures
            r == public_key_check(*self, kem),
    {
        if self.kem_alg != kem {
            Err(ProtocolError::AlgorithmMismatch)
        } else if self.pubkey_bytes.len() != kem.public_key_len() {
            Err(ProtocolError::KeyDeserialization)
        } else {
            Ok(())
        }
    }
}

impl AgileKeypair {
    pub fn check(&self, kem: KemAlg) -> (r: Result<(), ProtocolError>)
        ensures
            r == keypair_check(*self, kem),
    {
        if self.0.kem_alg != kem || self.1.kem_alg != kem {
            Err(ProtocolError::AlgorithmMismatch)
        } else if self.0.privkey_bytes.len() != kem.private_key_len()
            || self.1.pubkey_bytes.len() != kem.public_key_len() {
            Err(ProtocolError::KeyDeserialization)
        } else {
            Ok(())
        }
    }
}

impl AgilePskBundle {
    /// The pre-shared key must be exactly as long as the KDF's native output.
    pub fn check(&self, kdf: KdfAlg) -> (r: Result<(), ProtocolError>)
        ensures
            r == psk_check(*self, kdf),
    {
        if self.psk.len() != kdf.get_digest_len() {
            Err(ProtocolError::PskLength)
        } else {
            Ok(())
        }
    }
}

impl AgileOpModeS {
    pub fn check(&self, kem: KemAlg, kdf: KdfAlg) -> (r: Result<(), ProtocolError>)
        ensures
            r == mode_s_check(*self, kem, kdf),
    {
        if self.kem_alg != kem {
            return Err(ProtocolError::AlgorithmMismatch);
        }
        match &self.op_mode_ty {
            AgileOpModeSTy::Base => Ok(()),
            AgileOpModeSTy::Psk(b) => b.check(kdf),
            AgileOpModeSTy::Auth(kp) => kp.check(kem),
            AgileOpModeSTy::AuthPsk(kp, b) => {
                kp.check(kem)?;
                b.check(kdf)
            },
        }
    }
}

impl AgileOpModeR {
    pub fn check(&self, kem: KemAlg, kdf: KdfAlg) -> (r: Result<(), ProtocolError>)
        ensures
            r == mode_r_check(*self, kem, kdf),
    {
        if self.kem_alg != kem {
            return Err(ProtocolError::AlgorithmMismatch);
        }
        match &self.op_mode_ty {
            AgileOpModeRTy::Base => Ok(()),
            AgileOpModeRTy::Psk(b) => b.check(kdf),
            AgileOpModeRTy::Auth(pk) => pk.check(kem),
            AgileOpModeRTy::AuthPsk(pk, b) => {
                pk.check(kem)?;
                b.check(kdf)
            },
        }
    }
}

/// The sender's half of a primary exchange: encapsulates to `pk_recip` (authenticated by
/// the mode's key pair when it has one) and returns the encapsulated key with the raw
/// KEM shared secret, the root of the session key hierarchy.
pub fn agile_setup_sender_primary(
    kdf: KdfAlg,
    kem: KemAlg,
    mode: &AgileOpModeS,
    pk_recip: &AgilePublicKey,
    csprng: &mut rand::rngs::StdRng,
) -> (r: Result<(AgileEncappedKey, Vec<u8>), ProtocolError>)
    ensures
        sender_check(kem, kdf, *mode, *pk_recip) matches Err(e) ==> r == Err::<
            (AgileEncappedKey, Vec<u8>),
            ProtocolError,
        >(e),
        sender_check(kem, kdf, *mode, *pk_recip) is Ok ==> match r {
            Ok((enc, ss)) => enc.kem_alg == kem && enc.encapped_key_bytes@.len()
                == kem_public_key_len(kem) && ss@.len() == kem_secret_len(kem),
            Err(e) => e == ProtocolError::KeyExchange,
        },
        r matches Ok((enc, ss)) ==> mode_s_genuine(*mode, kem) ==> forall|sk: Seq<u8>| #[trigger]
            public_key_of(kem, sk) == Some(pk_recip.pubkey_bytes@) ==> decap_of(
                kem,
                sk,
                mode_s_sender_pk(*mode),
                enc.encapped_key_bytes@,
            ) == Some(ss@),
{
    mode.check(kem, kdf)?;
    pk_recip.check(kem)?;
    let sender: Option<(&[u8], &[u8])> = match &mode.op_mode_ty {
        AgileOpModeSTy::Auth(kp) => Some((kp.0.privkey_bytes.as_slice(), kp.1.pubkey_bytes.as_slice())),
        AgileOpModeSTy::AuthPsk(kp, _) => Some((kp.0.privkey_bytes.as_slice(), kp.1.pubkey_bytes.as_slice())),
        _ => None,
    };
    let res = match kem {
        KemAlg::X25519HkdfSha256 => x25519_encap(pk_recip.pubkey_bytes.as_slice(), sender, csprng),
        KemAlg::DhP256HkdfSha256 => p256_encap(pk_recip.pubkey_bytes.as_slice(), sender, csprng),
    };
    match res {
        Ok((ss, enc)) => Ok((AgileEncappedKey { kem_alg: kem, encapped_key_bytes: enc }, ss)),
        Err(_) => Err(ProtocolError::KeyExchange),
    }
}

/// The receiver's half of a primary exchange: decapsulates `enc` with its key pair (and
/// the sender's public key when the mode has one) and returns the raw KEM shared secret.
pub fn agile_setup_receiver_primary(
    kdf: KdfAlg,
    kem: KemAlg,
    mode: &AgileOpModeR,
    keypair: &AgileKeypair,
    enc: &AgileEncappedKey,
) -> (r: Result<Vec<u8>, ProtocolError>)
    ensures
        receiver_check(kem, kdf, *mode, *keypair, *enc) matches Err(e) ==> r == Err::<
            Vec<u8>,
            ProtocolError,
        >(e),
        receiver_check(kem, kdf, *mode, *keypair, *enc) is Ok ==> match r {
            Ok(ss) => ss@.len() == kem_secret_len(kem) && Some(ss@) == decap_of(
                kem,
                keypair.0.privkey_bytes@,
                mode_r_sender_pk(*mode),
                enc.encapped_key_bytes@,
            ),
            Err(e) => e == ProtocolError::KeyExchange && decap_of(
                kem,
                keypair.0.privkey_bytes@,
                mode_r_sender_pk(*mode),
                enc.encapped_key_bytes@,
            ) is None,
        },
{
    mode.check(kem, kdf)?;
    keypair.check(kem)?;
    if enc.kem_alg != kem {
        return Err(ProtocolError::AlgorithmMismatch);
    }
    if enc.encapped_key_bytes.len() != kem.public_key_len() {
        return Err(ProtocolError::KeyDeserialization);
    }
    let pk_sender: Option<&[u8]> = match &mode.op_mode_ty {
        AgileOpModeRTy::Auth(pk) => Some(pk.pubkey_bytes.as_slice()),
        AgileOpModeRTy::AuthPsk(pk, _) => Some(pk.pubkey_bytes.as_slice()),
        _ => None,
    };
    let sk = keypair.0.privkey_bytes.as_slice();
    let e = enc.encapped_key_bytes.as_slice();
    let res = match kem {
        KemAlg::X25519HkdfSha256 => x25519_decap(sk, pk_sender, e),
        KemAlg::DhP256HkdfSha256 => p256_decap(sk, pk_sender, e),
    };
    match res {
        Ok(ss) => Ok(ss),
        Err(_) => Err(ProtocolError::KeyExchange),
    }
}

} // verus!
