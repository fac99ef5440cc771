//! Trusted boundary to the cryptographic primitives: hashing, schnorr
//! signature verification, key generation and key derivation. Everything
//! above this boundary is verified; each item here states only what the
//! outside crate's source shows.
use vstd::prelude::*;

use crate::conditions::Condition;
use crate::credential::delegation_token_of;
use crate::credential::DelegationInfo;
use crate::credential::delegation_token;

verus! {

/// The sha256 digest of a byte string, as computed by `bitcoin_hashes`.
pub uninterp spec fn sha256_of(msg: Seq<u8>) -> Seq<u8>;

/// Relies on bitcoin_hashes' `Sha256::hash`: the digest is 32 bytes and
/// depends on the input bytes alone.
#[verifier::external_body]
fn sha256(msg: &Vec<u8>) -> (r: Vec<u8>)
    ensures
        r@ == sha256_of(msg@),
        r@.len() == 32,
{
    bitcoin_hashes::Sha256::hash(msg.as_slice()).to_byte_array().to_vec()
}

/// Whether `sig` is a valid BIP340 schnorr signature by the key `pk` over
/// the message `msg`, as decided by secp256k1's `verify_schnorr`; false
/// also when `pk` is not 32 bytes naming a valid curve point or `sig` is
/// not 64 bytes.
pub uninterp spec fn schnorr_ok(pk: Seq<u8>, msg: Seq<u8>, sig: Seq<u8>) -> bool;

/// Relies on secp256k1's `verify_schnorr` (with `XOnlyPublicKey::
/// from_byte_array` and `schnorr::Signature::from_byte_array` converting
/// the arguments): signature validity depends on the three byte strings
/// alone.
#[verifier::external_body]
fn schnorr_verify(pk: &Vec<u8>, msg: &Vec<u8>, sig: &Vec<u8>) -> (r: bool)
    ensures
        r == schnorr_ok(pk@, msg@, sig@),
{
    let secp = secp256k1::Secp256k1::verification_only();
    match (<[u8; 32]>::try_from(pk.as_slice()), <[u8; 64]>::try_from(sig.as_slice())) {
        (Ok(p), Ok(s)) => match secp256k1::XOnlyPublicKey::from_byte_array(&p) {
            Ok(pubkey) => {
                let signature = secp256k1::schnorr::Signature::from_byte_array(s);
                secp.verify_schnorr(&signature, msg.as_slice(), &pubkey).is_ok()
            },
            Err(_) => false,
        },
        _ => false,
    }
}

/// The x-only public key that secp256k1 key derivation (as used by nostr's
/// `Keys`) assigns to a 32-byte secret key.
pub uninterp spec fn pubkey_of(sk: Seq<u8>) -> Seq<u8>;

/// Whether a byte string is a well-formed secret key, as decided by
/// nostr's `SecretKey::from_slice`: exactly 32 bytes naming a valid
/// secp256k1 scalar. A function of the bytes alone.
pub uninterp spec fn is_valid_sk(sk: Seq<u8>) -> bool;

/// Relies on nostr's `Keys::generate` and `Keys::public_key`: a freshly
/// generated keypair has a 32-byte secret key, and its public key is the
/// one derived from that secret key.
#[verifier::external_body]
pub(crate) fn generate_keys() -> (r: (Vec<u8>, Vec<u8>))
    ensures
        r.0@.len() == 32,
        r.1@ == pubkey_of(r.0@),
        r.1@.len() == 32,
{
    let keys = nostr_sdk::prelude::Keys::generate();
    let sk = keys.secret_key().to_secret_bytes().to_vec();
    let pk = keys.public_key().to_bytes().to_vec();
    (sk, pk)
}

/// Relies on nostr's `SecretKey::from_slice` and `Keys::public_key`:
/// `Some` exactly when the bytes are a well-formed secret key (in
/// particular, `None` whenever the input is not 32 bytes long), and then
/// the returned 32 bytes are the public key derived from them.
#[verifier::external_body]
pub(crate) fn derive_pubkey(sk: &Vec<u8>) -> (r: Option<Vec<u8>>)
    ensures
        r is Some <==> is_valid_sk(sk@),
        match r {
            Some(pk) => pk@ == pubkey_of(sk@) && pk@.len() == 32 && sk@.len() == 32,
            None => true,
        },
{
    let secret = match nostr_sdk::prelude::SecretKey::from_slice(sk.as_slice()) {
        Ok(s) => s,
        Err(_) => return None,
    };
    let keys = nostr_sdk::prelude::Keys::new(secret);
    Some(keys.public_key().to_bytes().to_vec())
}

/// Relies on nostr's `SecretKey::generate`: 32 bytes drawn from the
/// operating system's randomness. Nothing is assumed about their value.
#[verifier::external_body]
pub(crate) fn random_bytes() -> (r: Vec<u8>)
    ensures
        r@.len() == 32,
{
    nostr_sdk::prelude::SecretKey::generate().to_secret_bytes().to_vec()
}

/// Relies on nostr's `Timestamp::now`: the current Unix time in seconds.
/// Nothing is assumed about its value.
#[verifier::external_body]
pub(crate) fn now_unix() -> u64
{
    nostr_sdk::prelude::Timestamp::now().as_secs()
}

/// Whether a delegation credential's signature is valid for the given
/// delegate key: the delegator signed the sha256 digest of the canonical
/// delegation token naming that delegate and these conditions.
pub open spec fn delegation_sig_ok(
    delegator: Seq<u8>,
    delegate: Seq<u8>,
    cs: Seq<Condition>,
    sig: Seq<u8>,
) -> bool {
    schnorr_ok(delegator, sha256_of(delegation_token_of(delegate, cs)), sig)
}

/// Verifies a delegation credential's signature against a delegate key.
pub fn verify_delegation(candidate: &DelegationInfo, delegate_pubkey: &Vec<u8>) -> (r: bool)
    ensures
        r == delegation_sig_ok(
            candidate@.delegator_pubkey,
            delegate_pubkey@,
            candidate@.conditions,
            candidate@.signature,
        ),
{
    let token = delegation_token(delegate_pubkey, &candidate.conditions);
    let digest = sha256(&token);
    schnorr_verify(&candidate.delegator_pubkey, &digest, &candidate.signature)
}

} // verus!
