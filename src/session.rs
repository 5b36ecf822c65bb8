use vstd::prelude::*;
use crate::agility::AgilePublicKey;
use crate::algorithms::{
    aead_from_code, kdf_from_code, kem_from_code, AeadAlg, CipherSuite, KdfAlg, KemAlg,
};
use crate::codes;
use crate::errors::ProtocolError;
use crate::wire::{
    bytes_payload, decode, decode_packet, pack_as_vect, read_bytes_payload, read_u16_payload,
    u16_payload, encode, MAX_PAYLOAD,
};

verus! {

/// What a state machine did with a packet: not one it waits for (no acknowledgment is
/// owed), stored (acknowledge it), or stored and now complete (acknowledge it and move on).
#[derive(Clone, Copy, Debug, PartialEq, Eq, Structural)]
pub enum Step {
    Ignored,
    Accepted,
    Complete,
}

pub open spec fn progress(done: bool) -> Step {
    if done {
        Step::Complete
    } else {
        Step::Accepted
    }
}

/// The first 16-bit value of a packet's payload.
pub open spec fn u16_head(buf: Seq<u8>) -> Result<u16, ProtocolError> {
    match u16_payload(buf) {
        Ok(xs) => Ok(xs[0]),
        Err(e) => Err(e),
    }
}

pub open spec fn kem_packet(buf: Seq<u8>) -> Result<KemAlg, ProtocolError> {
    match u16_head(buf) {
        Ok(c) => match kem_from_code(c) {
            Some(k) => Ok(k),
            None => Err(ProtocolError::UnknownAlgorithm),
        },
        Err(e) => Err(e),
    }
}

pub open spec fn kdf_packet(buf: Seq<u8>) -> Result<KdfAlg, ProtocolError> {
    match u16_head(buf) {
        Ok(c) => match kdf_from_code(c) {
            Some(k) => Ok(k),
            None => Err(ProtocolError::UnknownAlgorithm),
        },
        Err(e) => Err(e),
    }
}

pub open spec fn aead_packet(buf: Seq<u8>) -> Result<AeadAlg, ProtocolError> {
    match u16_head(buf) {
        Ok(c) => match aead_from_code(c) {
            Some(a) => Ok(a),
            None => Err(ProtocolError::UnknownAlgorithm),
        },
        Err(e) => Err(e),
    }
}

fn read_u16_head(buf: &[u8]) -> (r: Result<u16, ProtocolError>)
    ensures
        r == u16_head(buf@),
{
    let xs = read_u16_payload(buf)?;
    proof {
        let p = decode(buf@)->0;
        assert(p.2.len() >= 2);
    }
    Ok(xs[0])
}

/// The KEM announced by a KEM packet.
pub fn read_kem(buf: &[u8]) -> (r: Result<KemAlg, ProtocolError>)
    ensures
        r == kem_packet(buf@),
{
    let c = read_u16_head(buf)?;
    KemAlg::try_from_u16(c)
}

/// The KDF announced by a KDF packet.
pub fn read_kdf(buf: &[u8]) -> (r: Result<KdfAlg, ProtocolError>)
    ensures
        r == kdf_packet(buf@),
{
    let c = read_u16_head(buf)?;
    KdfAlg::try_from_u16(c)
}

/// The AEAD announced by an AEAD packet.
pub fn read_aead(buf: &[u8]) -> (r: Result<AeadAlg, ProtocolError>)
    ensures
        r == aead_packet(buf@),
{
    let c = read_u16_head(buf)?;
    AeadAlg::try_from_u16(c)
}

pub open spec fn opt_view(o: Option<Vec<u8>>) -> Option<Seq<u8>> {
    match o {
        Some(v) => Some(v@),
        None => None,
    }
}

// ---------------------------------------------------------------------------------------
// Responder: collecting the initiator's offer.
// ---------------------------------------------------------------------------------------

/// The offered codes of each family so far, and whether `FINISH` has arrived.
pub struct OfferCollector {
    kems: Vec<u16>,
    kdfs: Vec<u16>,
    aeads: Vec<u16>,
    finished: bool,
}

pub type OfferView = (Seq<u16>, Seq<u16>, Seq<u16>, bool);

impl View for OfferCollector {
    type V = OfferView;

    closed spec fn view(&self) -> OfferView {
        (self.kems@, self.kdfs@, self.aeads@, self.finished)
    }
}

/// The responder's handling of one packet of an offer: the codes of KEM, KDF and AEAD
/// packets are appended to their family, `FINISH` completes the offer.
pub open spec fn offer_step(v: OfferView, buf: Seq<u8>) -> (OfferView, Result<Step, ProtocolError>) {
    match decode(buf) {
        None => (v, Err(ProtocolError::MalformedPacket)),
        Some((id, _, _)) => if id == codes::KEM || id == codes::KDF || id == codes::AEAD {
            match u16_payload(buf) {
                Ok(xs) => {
                    let n = if id == codes::KEM {
                        (v.0 + xs, v.1, v.2, v.3)
                    } else if id == codes::KDF {
                        (v.0, v.1 + xs, v.2, v.3)
                    } else {
                        (v.0, v.1, v.2 + xs, v.3)
                    };
                    (n, Ok(Step::Accepted))
                },
                Err(e) => (v, Err(e)),
            }
        } else if id == codes::FINISH {
            ((v.0, v.1, v.2, true), Ok(Step::Complete))
        } else {
            (v, Ok(Step::Ignored))
        },
    }
}

fn append_all(dst: &mut Vec<u16>, src: Vec<u16>)
    ensures
        final(dst)@ == old(dst)@ + src@,
{
    let mut i: usize = 0;
    while i < src.len()
        invariant
            i <= src@.len(),
            dst@ =~= old(dst)@ + src@.take(i as int),
        decreases src.len() - i,
    {
        dst.push(src[i]);
        i = i + 1;
    }
    assert(src@.take(i as int) =~= src@);
}

impl OfferCollector {
    pub fn new() -> (r: Self)
        ensures
            r@ == (Seq::<u16>::empty(), Seq::<u16>::empty(), Seq::<u16>::empty(), false),
    {
        OfferCollector { kems: Vec::new(), kdfs: Vec::new(), aeads: Vec::new(), finished: false }
    }

    pub fn on_packet(&mut self, buf: &[u8]) -> (r: Result<Step, ProtocolError>)
        ensures
            (final(self)@, r) == offer_step(old(self)@, buf@),
    {
        let p = decode_packet(buf)?;
        let id = p.id;
        if id == codes::KEM || id == codes::KDF || id == codes::AEAD {
            let xs = read_u16_payload(buf)?;
            if id == codes::KEM {
                append_all(&mut self.kems, xs);
            } else if id == codes::KDF {
                append_all(&mut self.kdfs, xs);
            } else {
                append_all(&mut self.aeads, xs);
            }
            Ok(Step::Accepted)
        } else if id == codes::FINISH {
            self.finished = true;
            Ok(Step::Complete)
        } else {
            Ok(Step::Ignored)
        }
    }

    pub fn kems(&self) -> (r: &Vec<u16>)
        ensures
            r@ == self@.0,
    {
        &self.kems
    }

    pub fn kdfs(&self) -> (r: &Vec<u16>)
        ensures
            r@ == self@.1,
    {
        &self.kdfs
    }

    pub fn aeads(&self) -> (r: &Vec<u16>)
        ensures
            r@ == self@.2,
    {
        &self.aeads
    }
}

// ---------------------------------------------------------------------------------------
// Initiator: collecting the responder's selection and public key.
// ---------------------------------------------------------------------------------------

/// The selected algorithms and the responder's public key received so far.
pub struct SelectionCollector {
    kem: Option<KemAlg>,
    kdf: Option<KdfAlg>,
    aead: Option<AeadAlg>,
    pubkey: Option<Vec<u8>>,
}

pub type SelectionView = (Option<KemAlg>, Option<KdfAlg>, Option<AeadAlg>, Option<Seq<u8>>);

impl View for SelectionCollector {
    type V = SelectionView;

    closed spec fn view(&self) -> SelectionView {
        (self.kem, self.kdf, self.aead, opt_view(self.pubkey))
    }
}

pub open spec fn selection_done(v: SelectionView) -> bool {
    v.0 is Some && v.1 is Some && v.2 is Some && v.3 is Some
}

/// Whether a buffer starts with the abort signal.
pub open spec fn is_break(buf: Seq<u8>) -> bool {
    buf.len() >= 1 && buf[0] == codes::BREAK_CONNECTION
}

/// The initiator's handling of one packet of the selection; the four packets may come in
/// any order, and the abort signal ends the negotiation.
pub open spec fn selection_step(v: SelectionView, buf: Seq<u8>) -> (
    SelectionView,
    Result<Step, ProtocolError>,
) {
    if is_break(buf) {
        (v, Err(ProtocolError::NegotiationFailure))
    } else {
        match decode(buf) {
            None => (v, Err(ProtocolError::MalformedPacket)),
            Some((id, _, _)) => if id == codes::KEM {
                match kem_packet(buf) {
                    Ok(k) => {
                        let n = (Some(k), v.1, v.2, v.3);
                        (n, Ok(progress(selection_done(n))))
                    },
                    Err(e) => (v, Err(e)),
                }
            } else if id == codes::KDF {
                match kdf_packet(buf) {
                    Ok(k) => {
                        let n = (v.0, Some(k), v.2, v.3);
                        (n, Ok(progress(selection_done(n))))
                    },
                    Err(e) => (v, Err(e)),
                }
            } else if id == codes::AEAD {
                match aead_packet(buf) {
                    Ok(a) => {
                        let n = (v.0, v.1, Some(a), v.3);
                        (n, Ok(progress(selection_done(n))))
                    },
                    Err(e) => (v, Err(e)),
                }
            } else if id == codes::PUBKEY {
                match bytes_payload(buf) {
                    Ok(p) => {
                        let n = (v.0, v.1, v.2, Some(p));
                        (n, Ok(progress(selection_done(n))))
                    },
                    Err(e) => (v, Err(e)),
                }
            } else {
                (v, Ok(Step::Ignored))
            },
        }
    }
}

impl SelectionCollector {
    pub fn new() -> (r: Self)
        ensures
            r@ == (None::<KemAlg>, None::<KdfAlg>, None::<AeadAlg>, None::<Seq<u8>>),
    {
        SelectionCollector { kem: None, kdf: None, aead: None, pubkey: None }
    }

    fn done(&self) -> (r: bool)
        ensures
            r == selection_done(self@),
    {
        self.kem.is_some() && self.kdf.is_some() && self.aead.is_some() && self.pubkey.is_some()
    }

    pub fn on_packet(&mut self, buf: &[u8]) -> (r: Result<Step, ProtocolError>)
        ensures
            (final(self)@, r) == selection_step(old(self)@, buf@),
    {
        if buf.len() >= 1 && buf[0] == codes::BREAK_CONNECTION {
            return Err(ProtocolError::NegotiationFailure);
        }
        let p = decode_packet(buf)?;
        let id = p.id;
        if id == codes::KEM {
            let k = read_kem(buf)?;
            self.kem = Some(k);
        } else if id == codes::KDF {
            let k = read_kdf(buf)?;
            self.kdf = Some(k);
        } else if id == codes::AEAD {
            let a = read_aead(buf)?;
            self.aead = Some(a);
        } else if id == codes::PUBKEY {
            let pk = read_bytes_payload(buf)?;
            self.pubkey = Some(pk);
        } else {
            return Ok(Step::Ignored);
        }
        if self.done() {
            Ok(Step::Complete)
        } else {
            Ok(Step::Accepted)
        }
    }

    /// The agreed suite and the responder's public key, tagged with the agreed KEM, once
    /// all four packets have arrived.
    pub fn selection(&self) -> (r: Option<(CipherSuite, AgilePublicKey)>)
        ensures
            selection_done(self@) <==> r is Some,
            r matches Some((s, pk)) ==> s == (CipherSuite {
                kem: self@.0->0,
                kdf: self@.1->0,
                aead: self@.2->0,
            }) && pk.kem_alg == s.kem && pk.pubkey_bytes@ == self@.3->0,
    {
        match (self.kem, self.kdf, self.aead, &self.pubkey) {
            (Some(kem), Some(kdf), Some(aead), Some(pk)) => Some(
                (
                    CipherSuite { kem, kdf, aead },
                    AgilePublicKey { kem_alg: kem, pubkey_bytes: pk.clone() },
                ),
            ),
            _ => None,
        }
    }
}

// ---------------------------------------------------------------------------------------
// Secondary party: collecting the suite and key material its primary hands over.
// ---------------------------------------------------------------------------------------

/// What a primary hands its secondary party: the suite, the hierarchy secret, the
/// pre-shared key and its identifier.
#[derive(Clone, Debug)]
pub struct Provisioning {
    pub suite: CipherSuite,
    pub secret: Vec<u8>,
    pub psk: Vec<u8>,
    pub psk_id: Vec<u8>,
}

pub struct ProvisioningCollector {
    kem: Option<KemAlg>,
    kdf: Option<KdfAlg>,
    aead: Option<AeadAlg>,
    secret: Option<Vec<u8>>,
    psk: Option<Vec<u8>>,
    psk_id: Option<Vec<u8>>,
}

pub type ProvisioningView = (
    Option<KemAlg>,
    Option<KdfAlg>,
    Option<AeadAlg>,
    Option<Seq<u8>>,
    Option<Seq<u8>>,
    Option<Seq<u8>>,
);

impl View for ProvisioningCollector {
    type V = ProvisioningView;

    closed spec fn view(&self) -> ProvisioningView {
        (
            self.kem,
            self.kdf,
            self.aead,
            opt_view(self.secret),
            opt_view(self.psk),
            opt_view(self.psk_id),
        )
    }
}

pub open spec fn provisioning_done(v: ProvisioningView) -> bool {
    v.0 is Some && v.1 is Some && v.2 is Some && v.3 is Some && v.4 is Some && v.5 is Some
}

/// The secondary party's handling of one packet from its primary; the six packets may
/// come in any order, and the abort signal ends the exchange.
pub open spec fn provisioning_step(v: ProvisioningView, buf: Seq<u8>) -> (
    ProvisioningView,
    Result<Step, ProtocolError>,
) {
    if is_break(buf) {
        (v, Err(ProtocolError::NegotiationFailure))
    } else {
        match decode(buf) {
            None => (v, Err(ProtocolError::MalformedPacket)),
            Some((id, _, _)) => if id == codes::KEM {
                match kem_packet(buf) {
                    Ok(k) => {
                        let n = (Some(k), v.1, v.2, v.3, v.4, v.5);
                        (n, Ok(progress(provisioning_done(n))))
                    },
                    Err(e) => (v, Err(e)),
                }
            } else if id == codes::KDF {
                match kdf_packet(buf) {
                    Ok(k) => {
                        let n = (v.0, Some(k), v.2, v.3, v.4, v.5);
                        (n, Ok(progress(provisioning_done(n))))
                    },
                    Err(e) => (v, Err(e)),
                }
            } else if id == codes::AEAD {
                match aead_packet(buf) {
                    Ok(a) => {
                        let n = (v.0, v.1, Some(a), v.3, v.4, v.5);
                        (n, Ok(progress(provisioning_done(n))))
                    },
                    Err(e) => (v, Err(e)),
                }
            } else if id == codes::SHSEC || id == codes::PSK || id == codes::PSK_ID {
                match bytes_payload(buf) {
                    Ok(p) => {
                        let n = if id == codes::SHSEC {
                            (v.0, v.1, v.2, Some(p), v.4, v.5)
                        } else if id == codes::PSK {
                            (v.0, v.1, v.2, v.3, Some(p), v.5)
                        } else {
                            (v.0, v.1, v.2, v.3, v.4, Some(p))
                        };
                        (n, Ok(progress(provisioning_done(n))))
                    },
                    Err(e) => (v, Err(e)),
                }
            } else {
                (v, Ok(Step::Ignored))
            },
        }
    }
}

impl ProvisioningCollector {
    pub fn new() -> (r: Self)
        ensures
            r@ == (
                None::<KemAlg>,
                None::<KdfAlg>,
                None::<AeadAlg>,
                None::<Seq<u8>>,
                None::<Seq<u8>>,
                None::<Seq<u8>>,
            ),
    {
        ProvisioningCollector {
            kem: None,
            kdf: None,
            aead: None,
            secret: None,
            psk: None,
            psk_id: None,
        }
    }

    fn done(&self) -> (r: bool)
        ensures
            r == provisioning_done(self@),
    {
        self.kem.is_some() && self.kdf.is_some() && self.aead.is_some() && self.secret.is_some()
            && self.psk.is_some() && self.psk_id.is_some()
    }

    pub fn on_packet(&mut self, buf: &[u8]) -> (r: Result<Step, ProtocolError>)
        ensures
            (final(self)@, r) == provisioning_step(old(self)@, buf@),
    {
        if buf.len() >= 1 && buf[0] == codes::BREAK_CONNECTION {
            return Err(ProtocolError::NegotiationFailure);
        }
        let p = decode_packet(buf)?;
        let id = p.id;
        if id == codes::KEM {
            let k = read_kem(buf)?;
            self.kem = Some(k);
        } else if id == codes::KDF {
            let k = read_kdf(buf)?;
            self.kdf = Some(k);
        } else if id == codes::AEAD {
            let a = read_aead(buf)?;
            self.aead = Some(a);
        } else if id == codes::SHSEC || id == codes::PSK || id == codes::PSK_ID {
            let bytes = read_bytes_payload(buf)?;
            if id == codes::SHSEC {
                self.secret = Some(bytes);
            } else if id == codes::PSK {
                self.psk = Some(bytes);
            } else {
                self.psk_id = Some(bytes);
            }
        } else {
            return Ok(Step::Ignored);
        }
        if self.done() {
            Ok(Step::Complete)
        } else {
            Ok(Step::Accepted)
        }
    }

    /// Everything received, once all six packets have arrived.
    pub fn provisioning(&self) -> (r: Option<Provisioning>)
        ensures
            provisioning_done(self@) <==> r is Some,
            r matches Some(p) ==> p.suite == (CipherSuite {
                kem: self@.0->0,
                kdf: self@.1->0,
                aead: self@.2->0,
            }) && p.secret@ == self@.3->0 && p.psk@ == self@.4->0 && p.psk_id@ == self@.5->0,
    {
        match (self.kem, self.kdf, self.aead, &self.secret, &self.psk, &self.psk_id) {
            (Some(kem), Some(kdf), Some(aead), Some(secret), Some(psk), Some(psk_id)) => Some(
                Provisioning {
                    suite: CipherSuite { kem, kdf, aead },
                    secret: secret.clone(),
                    psk: psk.clone(),
                    psk_id: psk_id.clone(),
                },
            ),
            _ => None,
        }
    }
}

// ---------------------------------------------------------------------------------------
// Primary server: collecting the encapsulated key and the client's public key.
// ---------------------------------------------------------------------------------------

pub struct HandshakeCollector {
    enc: Option<Vec<u8>>,
    pubkey: Option<Vec<u8>>,
}

pub type HandshakeView = (Option<Seq<u8>>, Option<Seq<u8>>);

impl View for HandshakeCollector {
    type V = HandshakeView;

    closed spec fn view(&self) -> HandshakeView {
        (opt_view(self.enc), opt_view(self.pubkey))
    }
}

/// The server's handling of one packet carrying the encapsulated key or the client's
/// public key, in either order.
pub open spec fn handshake_step(v: HandshakeView, buf: Seq<u8>) -> (
    HandshakeView,
    Result<Step, ProtocolError>,
) {
    match decode(buf) {
        None => (v, Err(ProtocolError::MalformedPacket)),
        Some((id, _, _)) => if id == codes::ENCKEY || id == codes::PUBKEY {
            match bytes_payload(buf) {
                Ok(p) => {
                    let n = if id == codes::ENCKEY {
                        (Some(p), v.1)
                    } else {
                        (v.0, Some(p))
                    };
                    (n, Ok(progress(n.0 is Some && n.1 is Some)))
                },
                Err(e) => (v, Err(e)),
            }
        } else {
            (v, Ok(Step::Ignored))
        },
    }
}

impl HandshakeCollector {
    pub fn new() -> (r: Self)
        ensures
            r@ == (None::<Seq<u8>>, None::<Seq<u8>>),
    {
        HandshakeCollector { enc: None, pubkey: None }
    }

    pub fn on_packet(&mut self, buf: &[u8]) -> (r: Result<Step, ProtocolError>)
        ensures
            (final(self)@, r) == handshake_step(old(self)@, buf@),
    {
        let p = decode_packet(buf)?;
        let id = p.id;
        if id == codes::ENCKEY || id == codes::PUBKEY {
            let bytes = read_bytes_payload(buf)?;
            if id == codes::ENCKEY {
                self.enc = Some(bytes);
            } else {
                self.pubkey = Some(bytes);
            }
            if self.enc.is_some() && self.pubkey.is_some() {
                Ok(Step::Complete)
            } else {
                Ok(Step::Accepted)
            }
        } else {
            Ok(Step::Ignored)
        }
    }

    /// The encapsulated key and the client's public key, once both have arrived.
    pub fn keys(&self) -> (r: Option<(Vec<u8>, Vec<u8>)>)
        ensures
            (self@.0 is Some && self@.1 is Some) <==> r is Some,
            r matches Some((e, pk)) ==> e@ == self@.0->0 && pk@ == self@.1->0,
    {
        match (&self.enc, &self.pubkey) {
            (Some(e), Some(pk)) => Some((e.clone(), pk.clone())),
            _ => None,
        }
    }
}

// ---------------------------------------------------------------------------------------
// AEAD message exchange: staging the parts of one message.
// ---------------------------------------------------------------------------------------

/// Staging buffers for the ciphertext and the associated data of one message.
pub struct MessageAssembler {
    ciphertext: Option<Vec<u8>>,
    associated_data: Option<Vec<u8>>,
}

pub type MessageView = (Option<Seq<u8>>, Option<Seq<u8>>);

impl View for MessageAssembler {
    type V = MessageView;

    closed spec fn view(&self) -> MessageView {
        (opt_view(self.ciphertext), opt_view(self.associated_data))
    }
}

/// The receiver's handling of one packet of a message: ciphertext and associated data are
/// staged in either order; any other packet breaks the exchange.
pub open spec fn message_step(v: MessageView, buf: Seq<u8>) -> (
    MessageView,
    Result<Step, ProtocolError>,
) {
    match decode(buf) {
        None => (v, Err(ProtocolError::MalformedPacket)),
        Some((id, _, _)) => if id == codes::CIPHERTEXT || id == codes::ASSOCIATED_DATA {
            match bytes_payload(buf) {
                Ok(p) => {
                    let n = if id == codes::CIPHERTEXT {
                        (Some(p), v.1)
                    } else {
                        (v.0, Some(p))
                    };
                    (n, Ok(progress(n.0 is Some && n.1 is Some)))
                },
                Err(e) => (v, Err(e)),
            }
        } else {
            (v, Err(ProtocolError::MalformedPacket))
        },
    }
}

impl MessageAssembler {
    pub fn new() -> (r: Self)
        ensures
            r@ == (None::<Seq<u8>>, None::<Seq<u8>>),
    {
        MessageAssembler { ciphertext: None, associated_data: None }
    }

    pub fn on_packet(&mut self, buf: &[u8]) -> (r: Result<Step, ProtocolError>)
        ensures
            (final(self)@, r) == message_step(old(self)@, buf@),
    {
        let p = decode_packet(buf)?;
        let id = p.id;
        if id == codes::CIPHERTEXT || id == codes::ASSOCIATED_DATA {
            let bytes = read_bytes_payload(buf)?;
            if id == codes::CIPHERTEXT {
                self.ciphertext = Some(bytes);
            } else {
                self.associated_data = Some(bytes);
            }
            if self.ciphertext.is_some() && self.associated_data.is_some() {
                Ok(Step::Complete)
            } else {
                Ok(Step::Accepted)
            }
        } else {
            Err(ProtocolError::MalformedPacket)
        }
    }

    /// Hands over the ciphertext and associated data of a complete message and clears the
    /// staging buffers for the next one; an incomplete message stays staged.
    pub fn take_message(&mut self) -> (r: Result<(Vec<u8>, Vec<u8>), ProtocolError>)
        ensures
            match old(self)@ {
                (Some(c), Some(a)) => r matches Ok((ct, ad)) && ct@ == c && ad@ == a
                    && final(self)@ == (None::<Seq<u8>>, None::<Seq<u8>>),
                _ => r == Err::<(Vec<u8>, Vec<u8>), ProtocolError>(
                    ProtocolError::IncompleteMessage,
                ) && final(self)@ == old(self)@,
            },
    {
        if self.ciphertext.is_some() && self.associated_data.is_some() {
            let ct = self.ciphertext.take();
            let ad = self.associated_data.take();
            match (ct, ad) {
                (Some(ct), Some(ad)) => Ok((ct, ad)),
                _ => Err(ProtocolError::IncompleteMessage),
            }
        } else {
            Err(ProtocolError::IncompleteMessage)
        }
    }
}

/// The packets that carry one sealed message: the ciphertext, then the associated data.
pub fn message_packets(ciphertext: &Vec<u8>, associated_data: &Vec<u8>) -> (r: (Vec<u8>, Vec<u8>))
    requires
        ciphertext@.len() <= MAX_PAYLOAD,
        associated_data@.len() <= MAX_PAYLOAD,
    ensures
        r.0@ == encode(codes::CIPHERTEXT, codes::UTF8, ciphertext@),
        r.1@ == encode(codes::ASSOCIATED_DATA, codes::UTF8, associated_data@),
{
    (
        pack_as_vect(ciphertext.clone(), codes::UTF8, codes::CIPHERTEXT),
        pack_as_vect(associated_data.clone(), codes::UTF8, codes::ASSOCIATED_DATA),
    )
}

// ---------------------------------------------------------------------------------------
// Single-packet messages.
// ---------------------------------------------------------------------------------------

/// How a party waiting for its peer's public key handles one packet: the abort signal ends
/// the wait, a `PUBKEY` packet delivers the key, any other packet is passed over.
pub open spec fn peer_pubkey_packet(buf: Seq<u8>) -> Result<Option<Seq<u8>>, ProtocolError> {
    if is_break(buf) {
        Err(ProtocolError::NegotiationFailure)
    } else {
        match decode(buf) {
            None => Err(ProtocolError::MalformedPacket),
            Some((id, _, _)) => if id == codes::PUBKEY {
                match bytes_payload(buf) {
                    Ok(p) => Ok(Some(p)),
                    Err(e) => Err(e),
                }
            } else {
                Ok(None)
            },
        }
    }
}

/// Reads the peer's public key from a `PUBKEY` packet; `None` for a packet of another kind.
pub fn read_peer_pubkey(buf: &[u8]) -> (r: Result<Option<Vec<u8>>, ProtocolError>)
    ensures
        match peer_pubkey_packet(buf@) {
            Ok(Some(p)) => r matches Ok(Some(v)) && v@ == p,
            Ok(None) => r matches Ok(None),
            Err(e) => r == Err::<Option<Vec<u8>>, ProtocolError>(e),
        },
{
    if buf.len() >= 1 && buf[0] == codes::BREAK_CONNECTION {
        return Err(ProtocolError::NegotiationFailure);
    }
    let p = decode_packet(buf)?;
    if p.id == codes::PUBKEY {
        let pk = read_bytes_payload(buf)?;
        Ok(Some(pk))
    } else {
        Ok(None)
    }
}

/// The identifier a `PSK_ID` packet carries: exactly one byte.
pub open spec fn pskid_packet(buf: Seq<u8>) -> Result<u8, ProtocolError> {
    match decode(buf) {
        None => Err(ProtocolError::MalformedPacket),
        Some((id, _, _)) => if id != codes::PSK_ID {
            Err(ProtocolError::MalformedPacket)
        } else {
            match bytes_payload(buf) {
                Ok(p) => if p.len() == 1 {
                    Ok(p[0])
                } else {
                    Err(ProtocolError::UnknownPsk)
                },
                Err(e) => Err(e),
            }
        },
    }
}

/// Reads the pre-shared key identifier a `PSK_ID` packet carries.
pub fn receive_pskid(buf: &[u8]) -> (r: Result<u8, ProtocolError>)
    ensures
        r == pskid_packet(buf@),
{
    let p = decode_packet(buf)?;
    if p.id != codes::PSK_ID {
        return Err(ProtocolError::MalformedPacket);
    }
    let bytes = read_bytes_payload(buf)?;
    if bytes.len() == 1 {
        Ok(bytes[0])
    } else {
        Err(ProtocolError::UnknownPsk)
    }
}

/// The packet announcing the pre-shared key identifier `psk_id`.
pub fn pskid_message(psk_id: u8) -> (r: Vec<u8>)
    ensures
        r@ == encode(codes::PSK_ID, codes::UTF8, seq![psk_id]),
{
    let mut v: Vec<u8> = Vec::new();
    v.push(psk_id);
    pack_as_vect(v, codes::UTF8, codes::PSK_ID)
}

/// The connection type a `HELLO` packet announces: its one payload byte.
pub open spec fn hello_packet(buf: Seq<u8>) -> Option<u8> {
    match decode(buf) {
        Some((id, _, _)) => if id == codes::HELLO {
            match bytes_payload(buf) {
                Ok(p) => if p.len() == 1 {
                    Some(p[0])
                } else {
                    None
                },
                Err(_) => None,
            }
        } else {
            None
        },
        None => None,
    }
}

/// Reads the connection type from a `HELLO` packet; anything else announces nothing.
pub fn connection_type(buf: &[u8]) -> (r: Option<u8>)
    ensures
        r == hello_packet(buf@),
{
    let p = match decode_packet(buf) {
        Ok(p) => p,
        Err(_) => return None,
    };
    if p.id != codes::HELLO {
        return None;
    }
    match read_bytes_payload(buf) {
        Ok(bytes) => if bytes.len() == 1 {
            Some(bytes[0])
        } else {
            None
        },
        Err(_) => None,
    }
}

/// The packet announcing a connection of type `kind`.
pub fn hello_message(kind: u8) -> (r: Vec<u8>)
    ensures
        r@ == encode(codes::HELLO, codes::UTF8, seq![kind]),
{
    let mut v: Vec<u8> = Vec::new();
    v.push(kind);
    pack_as_vect(v, codes::UTF8, codes::HELLO)
}

} // verus!
