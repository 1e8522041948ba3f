//! Ed25519 public keys and signature checks, by `ed25519_dalek`.

use ed25519_dalek::{Signature, SignatureError, Verifier, VerifyingKey};
use vstd::prelude::*;

verus! {

/// A decoded Ed25519 public key.
#[verifier::external_type_specification]
#[verifier::external_body]
pub struct ExVerifyingKey(VerifyingKey);

/// The error that `ed25519_dalek` reports for a rejected key or signature.
#[verifier::external_type_specification]
#[verifier::external_body]
pub struct ExSignatureError(ed25519_dalek::ed25519::signature::Error);

/// Whether `VerifyingKey::from_bytes` accepts these 32 bytes as a point.
pub uninterp spec fn ed25519_key_accepts(key: Seq<u8>) -> bool;

/// Whether `Verifier::verify` of the key decoded from `key` accepts
/// `signature` over `message`.
pub uninterp spec fn ed25519_signature_valid(
    key: Seq<u8>,
    message: Seq<u8>,
    signature: Seq<u8>,
) -> bool;

/// The text of the error for 32 bytes that are no curve point.
pub open spec fn key_rejection_message() -> Seq<char> {
    "signature error: Cannot decompress Edwards point"@
}

/// A public key together with the 32 bytes it was decoded from. It is only
/// made by `decode`, so `key` is always the decoding of `bytes`.
pub(crate) struct Ed25519Key {
    bytes: [u8; 32],
    key: VerifyingKey,
}

impl Ed25519Key {
    /// The bytes that the key was decoded from.
    pub(crate) closed spec fn encoding(&self) -> Seq<u8> {
        self.bytes@
    }

    /// `VerifyingKey::from_bytes`: it succeeds exactly when the bytes
    /// decompress to a curve point, a function of the bytes named
    /// `ed25519_key_accepts`; the key keeps the bytes it came from. Its only
    /// error is a failed decompression, which the wrapper hands on as the
    /// error's `Display` text: with the `std` feature that `ed25519-dalek`
    /// enables by default, `signature::Error` writes "signature error", then
    /// ": " and its source, whose text is "Cannot decompress Edwards point".
    #[verifier::external_body]
    pub(crate) fn decode(bytes: [u8; 32]) -> (res: Result<Ed25519Key, String>)
        ensures
            res is Ok <==> ed25519_key_accepts(bytes@),
            res matches Ok(k) ==> k.encoding() == bytes@,
            res matches Err(t) ==> t@ == key_rejection_message(),
    {
        match VerifyingKey::from_bytes(&bytes) {
            Ok(key) => Ok(Ed25519Key { bytes, key }),
            Err(e) => Err(e.to_string()),
        }
    }

    /// `Verifier::verify` with the signature made by `Signature::from_bytes`:
    /// it succeeds exactly when the signature is valid for the message under
    /// the key, a function of the key's bytes, the message and the signature
    /// named `ed25519_signature_valid`.
    #[verifier::external_body]
    pub(crate) fn verify(&self, message: &[u8], signature: &[u8; 64]) -> (res: Result<(), SignatureError>)
        ensures
            res is Ok <==> ed25519_signature_valid(self.encoding(), message@, signature@),
    {
        self.key.verify(message, &Signature::from_bytes(signature))
    }
}

} // verus!
