//! Ed25519 signing of challenge strings with the operator's long-term keys.
//!
//! The keys arrive as they are configured, in padded base64. A signature
//! leaves as lowercase hexadecimal text of the full 64 bytes.

use crate::encoding::{
    base64_decode, base64_decoding, hex_decode, hex_decoding, hex_encode, hex_lower,
    is_lower_hex_char, lemma_hex_lower_shape, lemma_hex_round_trip,
};
use crate::error::AuthError;
use ed25519_dalek::Signer;
use ed25519_dalek::Verifier;
use vstd::prelude::*;
use vstd::utf8::encode_utf8;

verus! {

/// Length in bytes of an Ed25519 secret key, and of a public key.
pub const KEY_BYTES: usize = 32;

/// Length in bytes of an Ed25519 signature.
pub const SIGNATURE_BYTES: usize = 64;

/// The public key that `ed25519_dalek` derives from a secret key.
pub uninterp spec fn ed25519_public_key(secret: Seq<u8>) -> Seq<u8>;

/// The signature that `ed25519_dalek` makes of a message with a secret key
/// and the public key derived from it. Ed25519 signing uses no randomness.
pub uninterp spec fn ed25519_signature(secret: Seq<u8>, message: Seq<u8>) -> Seq<u8>;

/// Whether `ed25519_dalek` accepts a signature of a message under a public
/// key.
pub uninterp spec fn ed25519_accepts(public: Seq<u8>, message: Seq<u8>, signature: Seq<u8>) -> bool;

/// The error of `ed25519_dalek`; nothing of it is read.
#[verifier::external_type_specification]
#[verifier::external_body]
pub struct ExSignatureError(ed25519_dalek::SignatureError);

/// Calls `SecretKey::from_bytes`, which takes exactly 32 bytes of any value,
/// and `PublicKey::from` on the secret key.
#[verifier::external_body]
pub(crate) fn derive_public_key(secret: &[u8]) -> (res: Result<
    Vec<u8>,
    ed25519_dalek::SignatureError,
>)
    ensures
        res is Ok <==> secret@.len() == KEY_BYTES,
        res matches Ok(public) ==> public@ == ed25519_public_key(secret@) && public@.len()
            == KEY_BYTES,
{
    let key = ed25519_dalek::SecretKey::from_bytes(secret)?;
    Ok(ed25519_dalek::PublicKey::from(&key).to_bytes().to_vec())
}

/// Calls `Keypair::sign` with the secret key and the public key derived from
/// it. The secret key has to be 32 bytes; signing itself cannot fail. The
/// signature is 64 bytes. It is one that `PublicKey::verify` accepts for the
/// same message under the derived public key: verifying recomputes the
/// signature's point from its scalar, the public key and the hash that
/// signing used, and compares.
#[verifier::external_body]
pub(crate) fn sign_detached(secret: &[u8], message: &[u8]) -> (res: Result<
    Vec<u8>,
    ed25519_dalek::SignatureError,
>)
    ensures
        res is Ok <==> secret@.len() == KEY_BYTES,
        res matches Ok(signature) ==> {
            &&& signature@ == ed25519_signature(secret@, message@)
            &&& signature@.len() == SIGNATURE_BYTES
            &&& ed25519_accepts(ed25519_public_key(secret@), message@, signature@)
        },
{
    let secret = ed25519_dalek::SecretKey::from_bytes(secret)?;
    let public = ed25519_dalek::PublicKey::from(&secret);
    Ok((ed25519_dalek::Keypair { secret, public }).sign(message).to_bytes().to_vec())
}

/// Calls `PublicKey::from_bytes`, `Signature::from_bytes` and
/// `PublicKey::verify`. Bytes that are no public key or no signature are not
/// accepted.
#[verifier::external_body]
pub(crate) fn verify_detached(public: &[u8], message: &[u8], signature: &[u8]) -> (accepted: bool)
    ensures
        accepted == ed25519_accepts(public@, message@, signature@),
{
    match (
        ed25519_dalek::PublicKey::from_bytes(public),
        ed25519_dalek::Signature::from_bytes(signature),
    ) {
        (Ok(key), Ok(parsed)) => key.verify(message, &parsed).is_ok(),
        _ => false,
    }
}

/// The bytes that a key text in base64 stands for.
pub open spec fn key_bytes(text: Seq<char>) -> Option<Seq<u8>> {
    base64_decoding(encode_utf8(text))
}

/// The secret key of a configured pair, where both texts decode to keys of
/// the right length and the public key is the one that belongs to the secret
/// key.
pub open spec fn signing_secret(public_text: Seq<char>, private_text: Seq<char>) -> Option<
    Seq<u8>,
> {
    match (key_bytes(public_text), key_bytes(private_text)) {
        (Some(public), Some(secret)) => if secret.len() == KEY_BYTES && public.len() == KEY_BYTES
            && public == ed25519_public_key(secret) {
            Some(secret)
        } else {
            None
        },
        _ => None,
    }
}

/// The signature text for a challenge: the Ed25519 signature over the raw
/// bytes of the challenge, as 128 lowercase hexadecimal digits. Keys that do
/// not decode or do not belong together are refused.
pub open spec fn challenge_signature(
    auth_code: Seq<char>,
    public_text: Seq<char>,
    private_text: Seq<char>,
) -> Result<Seq<char>, AuthError> {
    match signing_secret(public_text, private_text) {
        Some(secret) => Ok(hex_lower(ed25519_signature(secret, encode_utf8(auth_code)))),
        None => Err(AuthError::InvalidKeyMaterial),
    }
}

/// Whether a signature text is accepted for a challenge under a public key
/// text.
pub open spec fn signature_verifies(
    auth_code: Seq<char>,
    public_text: Seq<char>,
    signature_text: Seq<char>,
) -> bool {
    match (key_bytes(public_text), hex_decoding(signature_text)) {
        (Some(public), Some(signature)) => ed25519_accepts(
            public,
            encode_utf8(auth_code),
            signature,
        ),
        _ => false,
    }
}

/// Whether the outcome of signing is the one described: the same text, or
/// the same failure.
pub open spec fn matches_outcome(
    outcome: Result<String, AuthError>,
    described: Result<Seq<char>, AuthError>,
) -> bool {
    match (outcome, described) {
        (Ok(text), Ok(wanted)) => text@ == wanted,
        (Err(error), Err(wanted)) => error == wanted,
        _ => false,
    }
}

/// Whether two byte strings are the same.
pub fn bytes_equal(left: &[u8], right: &[u8]) -> (same: bool)
    ensures
        same == (left@ == right@),
{
    if left.len() != right.len() {
        return false;
    }
    let mut index: usize = 0;
    while index < left.len()
        invariant
            left@.len() == right@.len(),
            index <= left@.len(),
            forall|k: int| 0 <= k < index ==> left@[k] == right@[k],
        decreases left@.len() - index,
    {
        if left[index] != right[index] {
            return false;
        }
        index += 1;
    }
    assert(left@ =~= right@);
    true
}

/// Signs a challenge with the operator's key pair.
///
/// The result is the signature text that `challenge_signature` describes, and
/// it is one that `verify_message` accepts for the same challenge and public
/// key. A pair whose halves do not belong together is detected here, before
/// anything is signed.
pub fn sign_message(auth_code: &str, user_public_key: &str, user_private_key: &str) -> (res: Result<
    String,
    AuthError,
>)
    ensures
        matches_outcome(res, challenge_signature(auth_code@, user_public_key@, user_private_key@)),
        res matches Ok(text) ==> {
            &&& text@.len() == 2 * SIGNATURE_BYTES
            &&& forall|i: int| 0 <= i < text@.len() ==> is_lower_hex_char(#[trigger] text@[i])
            &&& signature_verifies(auth_code@, user_public_key@, text@)
        },
{
    let public = match base64_decode(user_public_key.as_bytes()) {
        Ok(bytes) => bytes,
        Err(_) => {
            return Err(AuthError::InvalidKeyMaterial);
        },
    };
    let secret = match base64_decode(user_private_key.as_bytes()) {
        Ok(bytes) => bytes,
        Err(_) => {
            return Err(AuthError::InvalidKeyMaterial);
        },
    };
    let derived = match derive_public_key(secret.as_slice()) {
        Ok(bytes) => bytes,
        Err(_) => {
            return Err(AuthError::InvalidKeyMaterial);
        },
    };
    if !bytes_equal(public.as_slice(), derived.as_slice()) {
        return Err(AuthError::InvalidKeyMaterial);
    }
    match sign_detached(secret.as_slice(), auth_code.as_bytes()) {
        Ok(signature) => {
            let text = hex_encode(signature.as_slice());
            proof {
                lemma_hex_round_trip(signature@);
                lemma_hex_lower_shape(signature@);
            }
            Ok(text)
        },
        Err(_) => Err(AuthError::InvalidKeyMaterial),
    }
}

/// Checks a signature text for a challenge under the operator's public key.
pub fn verify_message(auth_code: &str, user_public_key: &str, signature: &str) -> (accepted: bool)
    ensures
        accepted == signature_verifies(auth_code@, user_public_key@, signature@),
{
    let public = match base64_decode(user_public_key.as_bytes()) {
        Ok(bytes) => bytes,
        Err(_) => {
            return false;
        },
    };
    let raw = match hex_decode(signature) {
        Ok(bytes) => bytes,
        Err(_) => {
            return false;
        },
    };
    verify_detached(public.as_slice(), auth_code.as_bytes(), raw.as_slice())
}

} // verus!
