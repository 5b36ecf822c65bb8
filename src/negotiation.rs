use vstd::prelude::*;
use crate::algorithms::{
    aead_code, aead_from_code, kdf_code, kdf_from_code, kem_code, kem_from_code, AeadAlg,
    CipherSuite, KdfAlg, KemAlg,
};
use crate::codes;
use crate::errors::ProtocolError;
use crate::wire::{be_bytes, encode, pack_as_vect, u16_to_vec_be, MAX_PAYLOAD};

verus! {

/// The last code of `offered`, in transmission order, that `supported` also holds.
pub open spec fn last_common(offered: Seq<u16>, supported: Seq<u16>) -> Option<u16>
    decreases offered.len(),
{
    if offered.len() == 0 {
        None
    } else if supported.contains(offered.last()) {
        Some(offered.last())
    } else {
        last_common(offered.drop_last(), supported)
    }
}

pub open spec fn kem_codes(s: Seq<KemAlg>) -> Seq<u16> {
    s.map_values(|k: KemAlg| kem_code(k))
}

pub open spec fn kdf_codes(s: Seq<KdfAlg>) -> Seq<u16> {
    s.map_values(|k: KdfAlg| kdf_code(k))
}

pub open spec fn aead_codes(s: Seq<AeadAlg>) -> Seq<u16> {
    s.map_values(|a: AeadAlg| aead_code(a))
}

/// Every offered code names a known algorithm of its family.
pub open spec fn offer_known(kems: Seq<u16>, kdfs: Seq<u16>, aeads: Seq<u16>) -> bool {
    &&& forall|i: int| 0 <= i < kems.len() ==> (#[trigger] kem_from_code(kems[i])) is Some
    &&& forall|i: int| 0 <= i < kdfs.len() ==> (#[trigger] kdf_from_code(kdfs[i])) is Some
    &&& forall|i: int| 0 <= i < aeads.len() ==> (#[trigger] aead_from_code(aeads[i])) is Some
}

/// The responder's choice: an unknown code is rejected; otherwise, for each family, the
/// last offered algorithm that the responder supports, or a negotiation failure when some
/// family has none.
pub open spec fn choice(
    kems: Seq<u16>,
    kdfs: Seq<u16>,
    aeads: Seq<u16>,
    sup_kems: Seq<KemAlg>,
    sup_kdfs: Seq<KdfAlg>,
    sup_aeads: Seq<AeadAlg>,
) -> Result<CipherSuite, ProtocolError> {
    if !offer_known(kems, kdfs, aeads) {
        Err(ProtocolError::UnknownAlgorithm)
    } else {
        match (
            last_common(kems, kem_codes(sup_kems)),
            last_common(kdfs, kdf_codes(sup_kdfs)),
            last_common(aeads, aead_codes(sup_aeads)),
        ) {
            (Some(k), Some(d), Some(a)) => Ok(
                CipherSuite {
                    kem: kem_from_code(k)->0,
                    kdf: kdf_from_code(d)->0,
                    aead: aead_from_code(a)->0,
                },
            ),
            _ => Err(ProtocolError::NegotiationFailure),
        }
    }
}

/// The views of a list of packets.
pub open spec fn packet_views(ps: Seq<Vec<u8>>) -> Seq<Seq<u8>> {
    ps.map_values(|p: Vec<u8>| p@)
}

/// The packets of an offer: one per KEM, KDF and AEAD code, then `FINISH`.
pub open spec fn offer_packets_spec(
    kems: Seq<KemAlg>,
    kdfs: Seq<KdfAlg>,
    aeads: Seq<AeadAlg>,
) -> Seq<Seq<u8>> {
    kems.map_values(|k: KemAlg| encode(codes::KEM, codes::UTF16, be_bytes(kem_code(k))))
        + kdfs.map_values(|k: KdfAlg| encode(codes::KDF, codes::UTF16, be_bytes(kdf_code(k))))
        + aeads.map_values(|a: AeadAlg| encode(codes::AEAD, codes::UTF16, be_bytes(aead_code(a))))
        + seq![encode(codes::FINISH, codes::UTF8, Seq::empty())]
}

/// The packets announcing a selected suite and the responder's public key.
pub open spec fn selection_packets_spec(suite: CipherSuite, pubkey: Seq<u8>) -> Seq<Seq<u8>> {
    seq![
        encode(codes::KEM, codes::UTF16, be_bytes(kem_code(suite.kem))),
        encode(codes::KDF, codes::UTF16, be_bytes(kdf_code(suite.kdf))),
        encode(codes::AEAD, codes::UTF16, be_bytes(aead_code(suite.aead))),
        encode(codes::PUBKEY, codes::UTF8, pubkey),
    ]
}

/// The packets announcing a suite alone, as a primary hands it on to its secondary party.
pub open spec fn suite_packets_spec(suite: CipherSuite) -> Seq<Seq<u8>> {
    seq![
        encode(codes::KEM, codes::UTF16, be_bytes(kem_code(suite.kem))),
        encode(codes::KDF, codes::UTF16, be_bytes(kdf_code(suite.kdf))),
        encode(codes::AEAD, codes::UTF16, be_bytes(aead_code(suite.aead))),
    ]
}

/// The abort signal: a single `BREAK_CONNECTION` byte.
pub open spec fn break_message() -> Seq<u8> {
    seq![codes::BREAK_CONNECTION]
}

/// What the responder sends after choosing: the selection, the abort signal when no
/// suite is common, and nothing when the offer was malformed.
pub open spec fn reply_spec(choice: Result<CipherSuite, ProtocolError>, pubkey: Seq<u8>) -> Seq<
    Seq<u8>,
> {
    match choice {
        Ok(suite) => selection_packets_spec(suite, pubkey),
        Err(ProtocolError::NegotiationFailure) => seq![break_message()],
        Err(_) => Seq::empty(),
    }
}

proof fn lemma_last_common(offered: Seq<u16>, supported: Seq<u16>)
    ensures
        last_common(offered, supported) is Some <==> exists|i: int|
            0 <= i < offered.len() && supported.contains(#[trigger] offered[i]),
        last_common(offered, supported) matches Some(c) ==> offered.contains(c)
            && supported.contains(c),
    decreases offered.len(),
{
    if offered.len() > 0 {
        let rest = offered.drop_last();
        lemma_last_common(rest, supported);
        if supported.contains(offered.last()) {
            assert(offered[offered.len() - 1] == offered.last());
        } else {
            if exists|i: int| 0 <= i < offered.len() && supported.contains(#[trigger] offered[i]) {
                let i = choose|i: int| 0 <= i < offered.len() && supported.contains(#[trigger] offered[i]);
                assert(i < offered.len() - 1);
                assert(rest[i] == offered[i]);
            }
            if exists|i: int| 0 <= i < rest.len() && supported.contains(#[trigger] rest[i]) {
                let i = choose|i: int| 0 <= i < rest.len() && supported.contains(#[trigger] rest[i]);
                assert(offered[i] == rest[i]);
            }
            if last_common(rest, supported) is Some {
                let c = last_common(rest, supported)->0;
                let j = choose|j: int| 0 <= j < rest.len() && rest[j] == c;
                assert(offered[j] == c);
            }
        }
    }
}

/// When both peers' supported sets meet in every family and every offered code is known,
/// the responder selects a suite each of whose algorithms both peers support.
pub proof fn lemma_negotiation_complete(
    kems: Seq<u16>,
    kdfs: Seq<u16>,
    aeads: Seq<u16>,
    sup_kems: Seq<KemAlg>,
    sup_kdfs: Seq<KdfAlg>,
    sup_aeads: Seq<AeadAlg>,
)
    requires
        offer_known(kems, kdfs, aeads),
        exists|k: KemAlg| sup_kems.contains(k) && kems.contains(kem_code(k)),
        exists|k: KdfAlg| sup_kdfs.contains(k) && kdfs.contains(kdf_code(k)),
        exists|a: AeadAlg| sup_aeads.contains(a) && aeads.contains(aead_code(a)),
    ensures
        choice(kems, kdfs, aeads, sup_kems, sup_kdfs, sup_aeads) matches Ok(s) && {
            &&& sup_kems.contains(s.kem) && kems.contains(kem_code(s.kem))
            &&& sup_kdfs.contains(s.kdf) && kdfs.contains(kdf_code(s.kdf))
            &&& sup_aeads.contains(s.aead) && aeads.contains(aead_code(s.aead))
        },
{
    let k = choose|k: KemAlg| sup_kems.contains(k) && kems.contains(kem_code(k));
    let d = choose|k: KdfAlg| sup_kdfs.contains(k) && kdfs.contains(kdf_code(k));
    let a = choose|a: AeadAlg| sup_aeads.contains(a) && aeads.contains(aead_code(a));
    let ik = choose|i: int| 0 <= i < kems.len() && kems[i] == kem_code(k);
    let id = choose|i: int| 0 <= i < kdfs.len() && kdfs[i] == kdf_code(d);
    let ia = choose|i: int| 0 <= i < aeads.len() && aeads[i] == aead_code(a);
    let jk = choose|j: int| 0 <= j < sup_kems.len() && sup_kems[j] == k;
    let jd = choose|j: int| 0 <= j < sup_kdfs.len() && sup_kdfs[j] == d;
    let ja = choose|j: int| 0 <= j < sup_aeads.len() && sup_aeads[j] == a;
    assert(kem_codes(sup_kems)[jk] == kem_code(k));
    assert(kdf_codes(sup_kdfs)[jd] == kdf_code(d));
    assert(aead_codes(sup_aeads)[ja] == aead_code(a));
    assert(kem_codes(sup_kems).contains(kems[ik]));
    assert(kdf_codes(sup_kdfs).contains(kdfs[id]));
    assert(aead_codes(sup_aeads).contains(aeads[ia]));
    lemma_last_common(kems, kem_codes(sup_kems));
    lemma_last_common(kdfs, kdf_codes(sup_kdfs));
    lemma_last_common(aeads, aead_codes(sup_aeads));
    let ck = last_common(kems, kem_codes(sup_kems))->0;
    let cd = last_common(kdfs, kdf_codes(sup_kdfs))->0;
    let ca = last_common(aeads, aead_codes(sup_aeads))->0;
    let xk = choose|j: int| 0 <= j < sup_kems.len() && kem_codes(sup_kems)[j] == ck;
    let xd = choose|j: int| 0 <= j < sup_kdfs.len() && kdf_codes(sup_kdfs)[j] == cd;
    let xa = choose|j: int| 0 <= j < sup_aeads.len() && aead_codes(sup_aeads)[j] == ca;
    assert(kem_from_code(ck) == Some(sup_kems[xk]));
    assert(kdf_from_code(cd) == Some(sup_kdfs[xd]));
    assert(aead_from_code(ca) == Some(sup_aeads[xa]));
}

/// When some family has no algorithm that both peers support (and every offered code is
/// known), no suite is chosen and the responder's whole reply is the abort signal.
pub proof fn lemma_negotiation_failure(
    kems: Seq<u16>,
    kdfs: Seq<u16>,
    aeads: Seq<u16>,
    sup_kems: Seq<KemAlg>,
    sup_kdfs: Seq<KdfAlg>,
    sup_aeads: Seq<AeadAlg>,
    pubkey: Seq<u8>,
)
    requires
        offer_known(kems, kdfs, aeads),
        (forall|k: KemAlg| sup_kems.contains(k) ==> !kems.contains(kem_code(k))) || (forall|
            k: KdfAlg,
        |
            sup_kdfs.contains(k) ==> !kdfs.contains(kdf_code(k))) || (forall|a: AeadAlg|
            sup_aeads.contains(a) ==> !aeads.contains(aead_code(a))),
    ensures
        choice(kems, kdfs, aeads, sup_kems, sup_kdfs, sup_aeads) == Err::<
            CipherSuite,
            ProtocolError,
        >(ProtocolError::NegotiationFailure),
        reply_spec(choice(kems, kdfs, aeads, sup_kems, sup_kdfs, sup_aeads), pubkey) == seq![
            break_message(),
        ],
{
    lemma_last_common(kems, kem_codes(sup_kems));
    lemma_last_common(kdfs, kdf_codes(sup_kdfs));
    lemma_last_common(aeads, aead_codes(sup_aeads));
    if forall|k: KemAlg| sup_kems.contains(k) ==> !kems.contains(kem_code(k)) {
        if last_common(kems, kem_codes(sup_kems)) is Some {
            let c = last_common(kems, kem_codes(sup_kems))->0;
            let j = choose|j: int| 0 <= j < sup_kems.len() && kem_codes(sup_kems)[j] == c;
            assert(sup_kems.contains(sup_kems[j]));
        }
    } else if forall|k: KdfAlg| sup_kdfs.contains(k) ==> !kdfs.contains(kdf_code(k)) {
        if last_common(kdfs, kdf_codes(sup_kdfs)) is Some {
            let c = last_common(kdfs, kdf_codes(sup_kdfs))->0;
            let j = choose|j: int| 0 <= j < sup_kdfs.len() && kdf_codes(sup_kdfs)[j] == c;
            assert(sup_kdfs.contains(sup_kdfs[j]));
        }
    } else {
        if last_common(aeads, aead_codes(sup_aeads)) is Some {
            let c = last_common(aeads, aead_codes(sup_aeads))->0;
            let j = choose|j: int| 0 <= j < sup_aeads.len() && aead_codes(sup_aeads)[j] == c;
            assert(sup_aeads.contains(sup_aeads[j]));
        }
    }
}

fn contains_code(v: &Vec<u16>, c: u16) -> (r: bool)
    ensures
        r == v@.contains(c),
{
    let mut i: usize = 0;
    while i < v.len()
        invariant
            i <= v.len(),
            forall|j: int| 0 <= j < i ==> v@[j] != c,
        decreases v.len() - i,
    {
        if v[i] == c {
            return true;
        }
        i = i + 1;
    }
    false
}

/// Scans the offer in transmission order; each offered code that `supported` holds
/// replaces the previous pick, so the last match wins.
fn last_common_code(offered: &Vec<u16>, supported: &Vec<u16>) -> (r: Option<u16>)
    ensures
        r == last_common(offered@, supported@),
{
    let mut chosen: Option<u16> = None;
    let mut i: usize = 0;
    while i < offered.len()
        invariant
            i <= offered.len(),
            chosen == last_common(offered@.take(i as int), supported@),
        decreases offered.len() - i,
    {
        assert(offered@.take(i + 1).drop_last() =~= offered@.take(i as int));
        if contains_code(supported, offered[i]) {
            chosen = Some(offered[i]);
        }
        i = i + 1;
    }
    assert(offered@.take(i as int) =~= offered@);
    chosen
}

fn kem_code_list(s: &[KemAlg]) -> (r: Vec<u16>)
    ensures
        r@ == kem_codes(s@),
{
    let mut out: Vec<u16> = Vec::new();
    let mut i: usize = 0;
    while i < s.len()
        invariant
            i <= s@.len(),
            out@ =~= kem_codes(s@.take(i as int)),
        decreases s.len() - i,
    {
        out.push(s[i].to_u16());
        i = i + 1;
    }
    assert(s@.take(i as int) =~= s@);
    out
}

fn kdf_code_list(s: &[KdfAlg]) -> (r: Vec<u16>)
    ensures
        r@ == kdf_codes(s@),
{
    let mut out: Vec<u16> = Vec::new();
    let mut i: usize = 0;
    while i < s.len()
        invariant
            i <= s@.len(),
            out@ =~= kdf_codes(s@.take(i as int)),
        decreases s.len() - i,
    {
        out.push(s[i].to_u16());
        i = i + 1;
    }
    assert(s@.take(i as int) =~= s@);
    out
}

fn aead_code_list(s: &[AeadAlg]) -> (r: Vec<u16>)
    ensures
        r@ == aead_codes(s@),
{
    let mut out: Vec<u16> = Vec::new();
    let mut i: usize = 0;
    while i < s.len()
        invariant
            i <= s@.len(),
            out@ =~= aead_codes(s@.take(i as int)),
        decreases s.len() - i,
    {
        out.push(s[i].to_u16());
        i = i + 1;
    }
    assert(s@.take(i as int) =~= s@);
    out
}

fn check_known(kems: &Vec<u16>, kdfs: &Vec<u16>, aeads: &Vec<u16>) -> (r: bool)
    ensures
        r == offer_known(kems@, kdfs@, aeads@),
{
    let mut i: usize = 0;
    while i < kems.len()
        invariant
            i <= kems.len(),
            forall|j: int| 0 <= j < i ==> (#[trigger] kem_from_code(kems@[j])) is Some,
        decreases kems.len() - i,
    {
        if KemAlg::try_from_u16(kems[i]).is_err() {
            return false;
        }
        i = i + 1;
    }
    let mut i: usize = 0;
    while i < kdfs.len()
        invariant
            i <= kdfs.len(),
            forall|j: int| 0 <= j < i ==> (#[trigger] kdf_from_code(kdfs@[j])) is Some,
        decreases kdfs.len() - i,
    {
        if KdfAlg::try_from_u16(kdfs[i]).is_err() {
            return false;
        }
        i = i + 1;
    }
    let mut i: usize = 0;
    while i < aeads.len()
        invariant
            i <= aeads.len(),
            forall|j: int| 0 <= j < i ==> (#[trigger] aead_from_code(aeads@[j])) is Some,
        decreases aeads.len() - i,
    {
        if AeadAlg::try_from_u16(aeads[i]).is_err() {
            return false;
        }
        i = i + 1;
    }
    true
}

/// Picks, for each family, the last offered algorithm that the responder supports.
pub fn choose_algorithms(
    client_kems: &Vec<u16>,
    client_kdfs: &Vec<u16>,
    client_aeads: &Vec<u16>,
    supported_kems: &[KemAlg],
    supported_kdfs: &[KdfAlg],
    supported_aeads: &[AeadAlg],
) -> (r: Result<CipherSuite, ProtocolError>)
    ensures
        r == choice(
            client_kems@,
            client_kdfs@,
            client_aeads@,
            supported_kems@,
            supported_kdfs@,
            supported_aeads@,
        ),
{
    if !check_known(client_kems, client_kdfs, client_aeads) {
        return Err(ProtocolError::UnknownAlgorithm);
    }
    let sk = kem_code_list(supported_kems);
    let sd = kdf_code_list(supported_kdfs);
    let sa = aead_code_list(supported_aeads);
    let ck = last_common_code(client_kems, &sk);
    let cd = last_common_code(client_kdfs, &sd);
    let ca = last_common_code(client_aeads, &sa);
    proof {
        lemma_last_common(client_kems@, sk@);
        lemma_last_common(client_kdfs@, sd@);
        lemma_last_common(client_aeads@, sa@);
    }
    match (ck, cd, ca) {
        (Some(k), Some(d), Some(a)) => {
            let kem = KemAlg::try_from_u16(k);
            let kdf = KdfAlg::try_from_u16(d);
            let aead = AeadAlg::try_from_u16(a);
            match (kem, kdf, aead) {
                (Ok(kem), Ok(kdf), Ok(aead)) => Ok(CipherSuite { kem, kdf, aead }),
                _ => {
                    proof {
                        let jk = choose|j: int| 0 <= j < client_kems@.len() && client_kems@[j] == k;
                        let jd = choose|j: int| 0 <= j < client_kdfs@.len() && client_kdfs@[j] == d;
                        let ja = choose|j: int|
                            0 <= j < client_aeads@.len() && client_aeads@[j] == a;
                        assert(kem_from_code(client_kems@[jk]) is Some);
                        assert(kdf_from_code(client_kdfs@[jd]) is Some);
                        assert(aead_from_code(client_aeads@[ja]) is Some);
                    }
                    Err(ProtocolError::UnknownAlgorithm)
                },
            }
        },
        _ => Err(ProtocolError::NegotiationFailure),
    }
}

/// The packets an initiator sends to offer its algorithms: one packet per code, then `FINISH`.
pub fn offer_packets(kems: &[KemAlg], kdfs: &[KdfAlg], aeads: &[AeadAlg]) -> (r: Vec<Vec<u8>>)
    ensures
        packet_views(r@) == offer_packets_spec(kems@, kdfs@, aeads@),
{
    let ghost spec_all = offer_packets_spec(kems@, kdfs@, aeads@);
    let ghost n1 = kems@.len() as int;
    let ghost n2 = n1 + kdfs@.len();
    let ghost n3 = n2 + aeads@.len();
    assert(spec_all.len() == n3 + 1);
    assert forall|j: int| 0 <= j < n1 implies spec_all[j] == encode(
        codes::KEM,
        codes::UTF16,
        be_bytes(kem_code(#[trigger] kems@[j])),
    ) by {}
    assert forall|j: int| 0 <= j < kdfs@.len() implies spec_all[n1 + j] == encode(
        codes::KDF,
        codes::UTF16,
        be_bytes(kdf_code(#[trigger] kdfs@[j])),
    ) by {}
    assert forall|j: int| 0 <= j < aeads@.len() implies spec_all[n2 + j] == encode(
        codes::AEAD,
        codes::UTF16,
        be_bytes(aead_code(#[trigger] aeads@[j])),
    ) by {}
    let mut out: Vec<Vec<u8>> = Vec::new();
    let mut i: usize = 0;
    while i < kems.len()
        invariant
            i <= kems@.len(),
            n1 == kems@.len(),
            out@.len() == i,
            forall|j: int| 0 <= j < i ==> (#[trigger] out@[j])@ == spec_all[j],
            forall|j: int| 0 <= j < n1 ==> spec_all[j] == encode(
                codes::KEM,
                codes::UTF16,
                be_bytes(kem_code(#[trigger] kems@[j])),
            ),
        decreases kems.len() - i,
    {
        out.push(pack_as_vect(u16_to_vec_be(kems[i].to_u16()), codes::UTF16, codes::KEM));
        i = i + 1;
    }
    let mut i: usize = 0;
    while i < kdfs.len()
        invariant
            i <= kdfs@.len(),
            n1 == kems@.len(),
            out@.len() == n1 + i,
            forall|j: int| 0 <= j < n1 + i ==> (#[trigger] out@[j])@ == spec_all[j],
            forall|j: int| 0 <= j < kdfs@.len() ==> spec_all[n1 + j] == encode(
                codes::KDF,
                codes::UTF16,
                be_bytes(kdf_code(#[trigger] kdfs@[j])),
            ),
        decreases kdfs.len() - i,
    {
        out.push(pack_as_vect(u16_to_vec_be(kdfs[i].to_u16()), codes::UTF16, codes::KDF));
        i = i + 1;
    }
    let mut i: usize = 0;
    while i < aeads.len()
        invariant
            i <= aeads@.len(),
            n2 == kems@.len() + kdfs@.len(),
            out@.len() == n2 + i,
            forall|j: int| 0 <= j < n2 + i ==> (#[trigger] out@[j])@ == spec_all[j],
            forall|j: int| 0 <= j < aeads@.len() ==> spec_all[n2 + j] == encode(
                codes::AEAD,
                codes::UTF16,
                be_bytes(aead_code(#[trigger] aeads@[j])),
            ),
        decreases aeads.len() - i,
    {
        out.push(pack_as_vect(u16_to_vec_be(aeads[i].to_u16()), codes::UTF16, codes::AEAD));
        i = i + 1;
    }
    out.push(pack_as_vect(Vec::new(), codes::UTF8, codes::FINISH));
    assert(spec_all[n3] == encode(codes::FINISH, codes::UTF8, Seq::empty()));
    assert(packet_views(out@) =~= spec_all);
    out
}

/// The packets a responder sends to announce the selected suite and its public key.
pub fn selection_packets(suite: CipherSuite, pubkey: &Vec<u8>) -> (r: Vec<Vec<u8>>)
    requires
        pubkey@.len() <= MAX_PAYLOAD,
    ensures
        packet_views(r@) == selection_packets_spec(suite, pubkey@),
{
    let mut out: Vec<Vec<u8>> = Vec::new();
    out.push(pack_as_vect(u16_to_vec_be(suite.kem.to_u16()), codes::UTF16, codes::KEM));
    out.push(pack_as_vect(u16_to_vec_be(suite.kdf.to_u16()), codes::UTF16, codes::KDF));
    out.push(pack_as_vect(u16_to_vec_be(suite.aead.to_u16()), codes::UTF16, codes::AEAD));
    out.push(pack_as_vect(pubkey.clone(), codes::UTF8, codes::PUBKEY));
    assert(packet_views(out@) =~= selection_packets_spec(suite, pubkey@));
    out
}

/// The packets announcing `suite`: its KEM, KDF and AEAD codes.
pub fn suite_packets(suite: CipherSuite) -> (r: Vec<Vec<u8>>)
    ensures
        packet_views(r@) == suite_packets_spec(suite),
{
    let mut out: Vec<Vec<u8>> = Vec::new();
    out.push(pack_as_vect(u16_to_vec_be(suite.kem.to_u16()), codes::UTF16, codes::KEM));
    out.push(pack_as_vect(u16_to_vec_be(suite.kdf.to_u16()), codes::UTF16, codes::KDF));
    out.push(pack_as_vect(u16_to_vec_be(suite.aead.to_u16()), codes::UTF16, codes::AEAD));
    assert(packet_views(out@) =~= suite_packets_spec(suite));
    out
}

/// What the responder sends once it has chosen: the selection and its public key, the
/// abort signal when some family has nothing in common, nothing for a malformed offer.
pub fn responder_reply(choice: &Result<CipherSuite, ProtocolError>, pubkey: &Vec<u8>) -> (r: Vec<
    Vec<u8>,
>)
    requires
        pubkey@.len() <= MAX_PAYLOAD,
    ensures
        packet_views(r@) == reply_spec(*choice, pubkey@),
{
    match choice {
        Ok(suite) => selection_packets(*suite, pubkey),
        Err(ProtocolError::NegotiationFailure) => {
            let mut m: Vec<u8> = Vec::new();
            m.push(codes::BREAK_CONNECTION);
            let mut out: Vec<Vec<u8>> = Vec::new();
            out.push(m);
            assert(packet_views(out@) =~= seq![break_message()]);
            out
        },
        Err(_) => {
            let out: Vec<Vec<u8>> = Vec::new();
            assert(packet_views(out@) =~= Seq::<Seq<u8>>::empty());
            out
        },
    }
}

} // verus!
