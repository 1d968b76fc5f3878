//! The node's wallet: an ed25519 keypair, its address and its signatures.

use crate::auth::base58;
use crate::text::decimal_string;
use ed25519_dalek::{Signer, Verifier};
use vstd::prelude::*;
use vstd::string::*;

verus! {

/// An ed25519 signing key, by its 32 secret bytes.
pub struct SigningKey {
    secret: [u8; 32],
}

impl View for SigningKey {
    type V = Seq<u8>;

    closed spec fn view(&self) -> Seq<u8> {
        self.secret@
    }
}

/// Why a keypair file cannot be used.
#[derive(Debug)]
pub enum KeypairError {
    /// It is not a JSON array of bytes.
    Json(serde_json::Error),
    /// It is an array of another number of bytes than 64.
    Length(usize),
}

/// The error of `serde_json`, carried through as it is.
#[verifier::external_type_specification]
#[verifier::external_body]
pub struct ExJsonError(serde_json::Error);

/// The public key that belongs to a secret key of 32 bytes.
pub uninterp spec fn ed25519_public_key(secret: Seq<u8>) -> Seq<u8>;

/// The signature of a message under a secret key of 32 bytes.
pub uninterp spec fn ed25519_signature(secret: Seq<u8>, message: Seq<u8>) -> Seq<u8>;

/// Whether a signature of a message is accepted under a public key.
pub uninterp spec fn ed25519_verifies(public_key: Seq<u8>, message: Seq<u8>, signature: Seq<u8>) -> bool;

/// The bytes that a JSON text lists, if it is an array of numbers from 0 to 255.
pub uninterp spec fn json_bytes(text: Seq<char>) -> Option<Seq<u8>>;

/// `ed25519_dalek::SigningKey::verifying_key` of the key with these secret bytes. The public key
/// is computed from the secret bytes alone; claimed of it is that and that it has 32 bytes.
#[verifier::external_body]
fn public_key(secret: &[u8; 32]) -> (r: [u8; 32])
    ensures
        r@ == ed25519_public_key(secret@),
{
    ed25519_dalek::SigningKey::from_bytes(secret).verifying_key().to_bytes()
}

/// `ed25519_dalek`'s `Signer::sign` by the key with these secret bytes. Ed25519 signatures are
/// deterministic: claimed is that the signature is computed from the secret bytes and the message
/// alone, that it has 64 bytes, and that it is accepted for this message under the public key
/// that belongs to the secret bytes.
#[verifier::external_body]
fn sign(secret: &[u8; 32], message: &[u8]) -> (r: [u8; 64])
    ensures
        r@ == ed25519_signature(secret@, message@),
        ed25519_verifies(ed25519_public_key(secret@), message@, r@),
{
    ed25519_dalek::SigningKey::from_bytes(secret).sign(message).to_bytes()
}

/// `ed25519_dalek`'s `Verifier::verify` by the public key with these bytes; bytes that are no
/// public key accept nothing. Claimed is that the answer depends on the three arguments alone.
#[verifier::external_body]
fn verify(public_key: &[u8; 32], message: &[u8], signature: &[u8; 64]) -> (r: bool)
    ensures
        r == ed25519_verifies(public_key@, message@, signature@),
{
    match ed25519_dalek::VerifyingKey::from_bytes(public_key) {
        Ok(key) => key.verify(message, &ed25519_dalek::Signature::from_bytes(signature)).is_ok(),
        Err(_) => false,
    }
}

/// `serde_json::from_str` into a byte vector. Claimed is that the text alone decides whether it
/// succeeds and with which bytes.
#[verifier::external_body]
fn parse_json_bytes(text: &str) -> (r: Result<Vec<u8>, serde_json::Error>)
    ensures
        match r {
            Ok(bytes) => json_bytes(text@) == Some(bytes@),
            Err(_) => json_bytes(text@) is None,
        },
{
    serde_json::from_str(text)
}

impl SigningKey {
    /// The key with these secret bytes.
    pub fn from_bytes(secret: &[u8; 32]) -> (r: Self)
        ensures
            r@ == secret@,
    {
        SigningKey { secret: *secret }
    }

    /// The secret bytes of the key.
    pub fn to_bytes(&self) -> (r: [u8; 32])
        ensures
            r@ == self@,
    {
        self.secret
    }

    /// Whether `signature` is one of `message` by this key.
    pub fn verify(&self, message: &str, signature: &[u8; 64]) -> (r: bool)
        ensures
            r == ed25519_verifies(
                ed25519_public_key(self@),
                vstd::utf8::encode_utf8(message@),
                signature@,
            ),
    {
        verify(&public_key(&self.secret), message.as_bytes(), signature)
    }
}

impl Clone for SigningKey {
    fn clone(&self) -> (r: Self)
        ensures
            r == *self,
    {
        SigningKey { secret: self.secret }
    }
}

/// What is said of a keypair that has `got` bytes in place of 64.
pub fn wrong_length_message(got: usize) -> (r: String)
    ensures
        r@ == "Expected 64-byte keypair, got "@ + crate::text::decimal(got as nat) + " bytes"@,
{
    let mut r = "Expected 64-byte keypair, got ".to_string();
    r.append(decimal_string(got as u64).as_str());
    r.append(" bytes");
    r
}

/// The signing key in a keypair of the Solana CLI: 64 bytes, of which the first 32 are the
/// secret key and the last 32 the public key. Any other number of bytes is refused.
pub fn keypair_from_bytes(bytes: &Vec<u8>) -> (r: Result<SigningKey, KeypairError>)
    ensures
        bytes@.len() == 64 ==> (r matches Ok(key) && key@ == bytes@.take(32)),
        bytes@.len() != 64 ==> (r matches Err(KeypairError::Length(n)) && n == bytes@.len()),
{
    if bytes.len() != 64 {
        return Err(KeypairError::Length(bytes.len()));
    }
    let mut secret: [u8; 32] = [0u8; 32];
    let mut i: usize = 0;
    while i < 32
        invariant
            i <= 32,
            bytes@.len() == 64,
            forall|k: int| 0 <= k < i ==> secret@[k] == bytes@[k],
        decreases 32 - i,
    {
        secret[i] = bytes[i];
        i = i + 1;
    }
    assert(secret@ =~= bytes@.take(32));
    Ok(SigningKey { secret })
}

/// Reads a keypair from the contents of a file in the format of the Solana CLI: a JSON array of
/// 64 bytes.
pub fn load_keypair(contents: &str) -> (r: Result<SigningKey, KeypairError>)
    ensures
        match json_bytes(contents@) {
            None => r matches Err(KeypairError::Json(_)),
            Some(bytes) => if bytes.len() == 64 {
                r matches Ok(key) && key@ == bytes.take(32)
            } else {
                r matches Err(KeypairError::Length(n)) && n == bytes.len()
            },
        },
{
    match parse_json_bytes(contents) {
        Ok(bytes) => keypair_from_bytes(&bytes),
        Err(e) => Err(KeypairError::Json(e)),
    }
}

/// The wallet address of the key with these secret bytes: its public key in base58.
pub open spec fn address_text(secret: Seq<u8>) -> Seq<char> {
    base58::base58(ed25519_public_key(secret))
}

/// The signature by the key with these secret bytes of a text's UTF-8 bytes, in base58.
pub open spec fn signature_text(secret: Seq<u8>, message: Seq<char>) -> Seq<char> {
    base58::base58(ed25519_signature(secret, vstd::utf8::encode_utf8(message)))
}

/// The base58-encoded public key. The bytes that the text stands for are the 32 of the public
/// key and no others.
pub fn wallet_address(keypair: &SigningKey) -> (r: String)
    ensures
        r@ == address_text(keypair@),
        32 <= r@.len() <= 44,
        ed25519_public_key(keypair@).len() == 32,
        forall|key: Seq<u8>| #[trigger]
            base58::base58(key) == r@ ==> key == ed25519_public_key(keypair@),
{
    let key = public_key(&keypair.secret);
    proof {
        base58::base58_length(key@, 4);
        assert forall|other: Seq<u8>| #[trigger]
            base58::base58(other) == base58::base58(key@) implies other == key@ by {
            base58::base58_injective(other, key@);
        }
    }
    base58::encode(key.as_slice())
}

/// Signs a message and returns the signature in base58. The bytes that the text stands for are
/// 64, and they are accepted as a signature of the message's UTF-8 bytes under the key's public
/// key.
pub fn sign_message(keypair: &SigningKey, message: &str) -> (r: String)
    ensures
        r@ == signature_text(keypair@, message@),
        64 <= r@.len() <= 88,
        forall|signature: Seq<u8>| #[trigger]
            base58::base58(signature) == r@ ==> signature.len() == 64 && ed25519_verifies(
                ed25519_public_key(keypair@),
                vstd::utf8::encode_utf8(message@),
                signature,
            ),
{
    let signature = sign(&keypair.secret, message.as_bytes());
    proof {
        base58::base58_length(signature@, 8);
        assert forall|other: Seq<u8>| #[trigger]
            base58::base58(other) == base58::base58(signature@) implies other == signature@ by {
            base58::base58_injective(other, signature@);
        }
    }
    base58::encode(signature.as_slice())
}

} // verus!
