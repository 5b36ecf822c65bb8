use vstd::prelude::*;
use crate::errors::ProtocolError;

verus! {

#[verifier::external_type_specification]
#[verifier::external_body]
pub struct ExConcatKdfError(concat_kdf::Error);

/// The 32-byte Concat KDF (NIST SP 800-56A) output over SHA-256 for a secret and a label.
pub uninterp spec fn concat_kdf_sha256(secret: Seq<u8>, other_info: Seq<u8>) -> Seq<u8>;

/// Relies on `concat_kdf::derive_key_into::<sha2::Sha256>` into a 32-byte key: it refuses
/// an empty secret (`Error::NoSecret`) and otherwise fills the key, which depends on the
/// secret and the label alone.
#[verifier::external_body]
fn concat_kdf_derive(secret: &[u8], other_info: &[u8]) -> (r: Result<Vec<u8>, concat_kdf::Error>)
    ensures
        secret@.len() == 0 <==> r is Err,
        r matches Ok(k) ==> k@ == concat_kdf_sha256(secret@, other_info@) && k@.len() == 32,
{
    let mut key = [0u8; 32];
    match concat_kdf::derive_key_into::<sha2::Sha256>(secret, other_info, &mut key) {
        Ok(()) => Ok(key.to_vec()),
        Err(e) => Err(e),
    }
}

/// One derivation step: a new secret from a secret and a public label; an empty secret
/// derives nothing.
pub open spec fn step(secret: Seq<u8>, label: Seq<u8>) -> Option<Seq<u8>> {
    if secret.len() == 0 {
        None
    } else {
        Some(concat_kdf_sha256(secret, label))
    }
}

/// Two chained steps: `second_label` applied to what `first_label` derived from `secret`.
pub open spec fn chain(secret: Seq<u8>, first_label: Seq<u8>, second_label: Seq<u8>) -> Option<
    Seq<u8>,
> {
    match step(secret, first_label) {
        Some(k) => step(k, second_label),
        None => None,
    }
}

/// A session key: the role key bound to the connection by a binder derived from the key
/// refresh input and the five-tuple label.
pub open spec fn session_key_spec(role_key: Seq<u8>, kri: Seq<u8>, five_tuple: Seq<u8>) -> Option<
    Seq<u8>,
> {
    match step(kri, five_tuple) {
        Some(b) => step(b, role_key),
        None => None,
    }
}

/// The session key a secondary client reaches from the role key its primary client
/// derived: root, then pair id, then participant id, then the binder.
pub open spec fn client_path(
    root: Seq<u8>,
    pair_id: Seq<u8>,
    participant_id: Seq<u8>,
    kri: Seq<u8>,
    five_tuple: Seq<u8>,
) -> Option<Seq<u8>> {
    match chain(root, pair_id, participant_id) {
        Some(role) => session_key_spec(role, kri, five_tuple),
        None => None,
    }
}

/// The session key a secondary server reaches from the pair key its primary server
/// derived, applying the participant id itself.
pub open spec fn server_path(
    root: Seq<u8>,
    pair_id: Seq<u8>,
    participant_id: Seq<u8>,
    kri: Seq<u8>,
    five_tuple: Seq<u8>,
) -> Option<Seq<u8>> {
    match step(root, pair_id) {
        Some(pair) => match step(pair, participant_id) {
            Some(role) => session_key_spec(role, kri, five_tuple),
            None => None,
        },
        None => None,
    }
}

fn map_err<T>(r: Result<T, concat_kdf::Error>) -> (o: Result<T, ProtocolError>)
    ensures
        r is Ok <==> o is Ok,
        r matches Ok(v) ==> o == Ok::<T, ProtocolError>(v),
        r is Err ==> o == Err::<T, ProtocolError>(ProtocolError::KeyDerivation),
{
    match r {
        Ok(v) => Ok(v),
        Err(_) => Err(ProtocolError::KeyDerivation),
    }
}

/// One derivation step.
pub fn derive_key(secret: &[u8], label: &[u8]) -> (r: Result<Vec<u8>, ProtocolError>)
    ensures
        secret@.len() > 0 <==> r is Ok,
        match step(secret@, label@) {
            Some(k) => r matches Ok(v) && v@ == k && v@.len() == 32,
            None => r == Err::<Vec<u8>, ProtocolError>(ProtocolError::KeyDerivation),
        },
{
    map_err(concat_kdf_derive(secret, label))
}

/// The primary client's key for its secondary client: the pair key, then the
/// participant's id. It is derived exactly when the root secret is not empty.
pub fn derive_role_key(root: &[u8], pair_id: &[u8], participant_id: &[u8]) -> (r: Result<
    Vec<u8>,
    ProtocolError,
>)
    ensures
        root@.len() > 0 <==> r is Ok,
        match chain(root@, pair_id@, participant_id@) {
            Some(k) => r matches Ok(v) && v@ == k && v@.len() == 32,
            None => r == Err::<Vec<u8>, ProtocolError>(ProtocolError::KeyDerivation),
        },
{
    let pair = derive_key(root, pair_id)?;
    derive_key(pair.as_slice(), participant_id)
}

/// The primary server's key for its secondary server: the pair key. It is derived exactly
/// when the root secret is not empty.
pub fn derive_pair_key(root: &[u8], pair_id: &[u8]) -> (r: Result<Vec<u8>, ProtocolError>)
    ensures
        root@.len() > 0 <==> r is Ok,
        match step(root@, pair_id@) {
            Some(k) => r matches Ok(v) && v@ == k && v@.len() == 32,
            None => r == Err::<Vec<u8>, ProtocolError>(ProtocolError::KeyDerivation),
        },
{
    derive_key(root, pair_id)
}

/// A secondary client's session keys from the role key `sck` it received; the sending and
/// the receiving key are the same key. They are derived exactly when the key refresh input
/// is not empty.
pub fn generate_session_keys(sck: &Vec<u8>, kri: &[u8], tuple5: &[u8]) -> (r: Result<
    (Vec<u8>, Vec<u8>),
    ProtocolError,
>)
    ensures
        kri@.len() > 0 <==> r is Ok,
        match session_key_spec(sck@, kri@, tuple5@) {
            Some(k) => r matches Ok((a, b)) && a@ == k && b@ == k && k.len() == 32,
            None => r == Err::<(Vec<u8>, Vec<u8>), ProtocolError>(ProtocolError::KeyDerivation),
        },
{
    let kri5tuple = derive_key(kri, tuple5)?;
    let scsk = derive_key(kri5tuple.as_slice(), sck.as_slice())?;
    let sssk = derive_key(kri5tuple.as_slice(), sck.as_slice())?;
    Ok((scsk, sssk))
}

/// A secondary server's keys from the pair key `ssk` it received: the role key of the
/// client `client_id`, and the session keys built on it. They are derived exactly when
/// neither the pair key nor the key refresh input is empty.
pub fn generate_server_session_keys(
    ssk: &Vec<u8>,
    kri: &[u8],
    tuple5: &[u8],
    client_id: &[u8],
) -> (r: Result<(Vec<u8>, Vec<u8>, Vec<u8>), ProtocolError>)
    ensures
        ssk@.len() > 0 && kri@.len() > 0 <==> r is Ok,
        match step(ssk@, client_id@) {
            Some(sck) => match session_key_spec(sck, kri@, tuple5@) {
                Some(k) => r matches Ok((a, b, c)) && a@ == sck && b@ == k && c@ == k
                    && sck.len() == 32 && k.len() == 32,
                None => r == Err::<(Vec<u8>, Vec<u8>, Vec<u8>), ProtocolError>(
                    ProtocolError::KeyDerivation,
                ),
            },
            None => r == Err::<(Vec<u8>, Vec<u8>, Vec<u8>), ProtocolError>(
                ProtocolError::KeyDerivation,
            ),
        },
{
    let sck = derive_key(ssk.as_slice(), client_id)?;
    let kri5tuple = derive_key(kri, tuple5)?;
    let scsk = derive_key(kri5tuple.as_slice(), sck.as_slice())?;
    let kdf_ssk_clientid = derive_key(ssk.as_slice(), client_id)?;
    let sssk = derive_key(kri5tuple.as_slice(), kdf_ssk_clientid.as_slice())?;
    Ok((sck, scsk, sssk))
}

/// Derives the secondary session key both ways from the same public inputs: as the
/// secondary client does from its primary client's role key, and as the secondary server
/// does from its primary server's pair key. Both succeed exactly when the root secret and
/// the key refresh input are not empty, and then give the same bits.
pub fn derive_session_key_both_ways(
    root: &[u8],
    pair_id: &[u8],
    participant_id: &[u8],
    kri: &[u8],
    tuple5: &[u8],
) -> (r: Result<(Vec<u8>, Vec<u8>), ProtocolError>)
    ensures
        root@.len() > 0 && kri@.len() > 0 <==> r is Ok,
        r matches Ok((c, s)) ==> c@ == s@ && Some(c@) == client_path(
            root@,
            pair_id@,
            participant_id@,
            kri@,
            tuple5@,
        ) && Some(s@) == server_path(root@, pair_id@, participant_id@, kri@, tuple5@),
        r is Err ==> r == Err::<(Vec<u8>, Vec<u8>), ProtocolError>(ProtocolError::KeyDerivation),
{
    let role = derive_role_key(root, pair_id, participant_id)?;
    let (client_key, _) = generate_session_keys(&role, kri, tuple5)?;
    let pair = derive_pair_key(root, pair_id)?;
    let (_, server_key, _) = generate_server_session_keys(&pair, kri, tuple5, participant_id)?;
    Ok((client_key, server_key))
}

/// Given the same root secret, pair id, participant id, key refresh input and five-tuple,
/// the key a secondary client derives from its primary client's role key and the key a
/// secondary server derives from its primary server's pair key are the same bits.
pub proof fn lemma_paths_agree(
    root: Seq<u8>,
    pair_id: Seq<u8>,
    participant_id: Seq<u8>,
    kri: Seq<u8>,
    five_tuple: Seq<u8>,
)
    ensures
        client_path(root, pair_id, participant_id, kri, five_tuple) == server_path(
            root,
            pair_id,
            participant_id,
            kri,
            five_tuple,
        ),
{
}

} // verus!
