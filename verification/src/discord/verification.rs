//! Authentication of Discord requests: the Ed25519 signature that Discord
//! puts in the `x-signature-ed25519` header, over the timestamp header
//! followed by the raw body, under the application's public key.

use crate::discord::ed25519::{
    ed25519_key_accepts, ed25519_signature_valid, key_rejection_message, Ed25519Key,
};
use crate::discord::hex_codec::{
    ascii_uppercase, hex_decode, hex_decoding, hex_error_message, hex_error_text,
    law_hex_decoding_ignores_case,
};
use crate::text::{length_mismatch_message, length_mismatch_text};
use vstd::prelude::*;
use vstd::string::StringExecFns;

verus! {

/// The length in bytes of an Ed25519 signature.
pub const SIGNATURE_LENGTH: usize = 64;

/// The length in bytes of an Ed25519 public key.
pub const PUBLIC_KEY_LENGTH: usize = 32;

/// Why a request's signature was not accepted.
#[derive(Debug)]
pub enum VerificationError {
    MissingSignature,
    MissingTimestamp,
    /// The signature header is no hexadecimal encoding of 64 bytes.
    InvalidSignatureFormat(String),
    /// The public key is no hexadecimal encoding of a valid 32-byte key.
    InvalidPublicKeyFormat(String),
    /// The signature does not match the message under the key.
    VerificationFailed,
}

impl VerificationError {
    /// The text that describes the error.
    pub open spec fn message_text(self) -> Seq<char> {
        match self {
            VerificationError::MissingSignature => "Missing signature header"@,
            VerificationError::MissingTimestamp => "Missing timestamp header"@,
            VerificationError::InvalidSignatureFormat(s) => "Invalid signature format: "@ + s@,
            VerificationError::InvalidPublicKeyFormat(s) => "Invalid public key format: "@ + s@,
            VerificationError::VerificationFailed => "Signature verification failed"@,
        }
    }

    /// The text that describes the error.
    pub fn message(&self) -> (t: String)
        ensures
            t@ == self.message_text(),
    {
        match self {
            VerificationError::MissingSignature => "Missing signature header".to_string(),
            VerificationError::MissingTimestamp => "Missing timestamp header".to_string(),
            VerificationError::InvalidSignatureFormat(s) => "Invalid signature format: ".to_string().concat(
                s.as_str(),
            ),
            VerificationError::InvalidPublicKeyFormat(s) => "Invalid public key format: ".to_string().concat(
                s.as_str(),
            ),
            VerificationError::VerificationFailed => "Signature verification failed".to_string(),
        }
    }
}

/// The bytes that Discord signs: the timestamp followed by the body, in UTF-8.
pub open spec fn signed_message(timestamp: Seq<char>, body: Seq<char>) -> Seq<u8> {
    vstd::utf8::encode_utf8(timestamp + body)
}

/// The outcome of checking a signature, as the checks decide it in order.
pub enum SignatureVerdict {
    Valid,
    /// The signature is rejected with this text.
    BadSignatureFormat(Seq<char>),
    /// The public key is rejected with this text.
    BadPublicKeyFormat(Seq<char>),
    /// Everything is well formed but the signature does not verify.
    Forged,
}

/// The verdict on a public key and a signature, both as the bytes of their
/// hexadecimal text, and the signed message.
pub open spec fn signature_verdict(
    public_key: Seq<u8>,
    signature: Seq<u8>,
    message: Seq<u8>,
) -> SignatureVerdict {
    match hex_decoding(signature) {
        Err(e) => SignatureVerdict::BadSignatureFormat(hex_error_message(e)),
        Ok(sig) => if sig.len() != SIGNATURE_LENGTH {
            SignatureVerdict::BadSignatureFormat(
                length_mismatch_message(SIGNATURE_LENGTH as nat, sig.len()),
            )
        } else {
            match hex_decoding(public_key) {
                Err(e) => SignatureVerdict::BadPublicKeyFormat(hex_error_message(e)),
                Ok(key) => if key.len() != PUBLIC_KEY_LENGTH {
                    SignatureVerdict::BadPublicKeyFormat(
                        length_mismatch_message(PUBLIC_KEY_LENGTH as nat, key.len()),
                    )
                } else if !ed25519_key_accepts(key) {
                    SignatureVerdict::BadPublicKeyFormat(key_rejection_message())
                } else if ed25519_signature_valid(key, message, sig) {
                    SignatureVerdict::Valid
                } else {
                    SignatureVerdict::Forged
                },
            }
        },
    }
}

/// The verdict on the arguments of `verify_discord_signature`.
pub open spec fn request_verdict(
    public_key: Seq<char>,
    signature: Seq<char>,
    timestamp: Seq<char>,
    body: Seq<char>,
) -> SignatureVerdict {
    signature_verdict(
        vstd::utf8::encode_utf8(public_key),
        vstd::utf8::encode_utf8(signature),
        signed_message(timestamp, body),
    )
}

/// Whether `res` is what the verdict calls for.
pub open spec fn answers_verdict(res: Result<(), VerificationError>, v: SignatureVerdict) -> bool {
    match v {
        SignatureVerdict::Valid => res is Ok,
        SignatureVerdict::BadSignatureFormat(m) => res matches Err(
            VerificationError::InvalidSignatureFormat(t),
        ) && t@ == m,
        SignatureVerdict::BadPublicKeyFormat(m) => res matches Err(
            VerificationError::InvalidPublicKeyFormat(t),
        ) && t@ == m,
        SignatureVerdict::Forged => res matches Err(VerificationError::VerificationFailed),
    }
}

/// A request is accepted exactly when its signature header decodes from
/// hexadecimal to 64 bytes, the public key decodes to 32 bytes that form an
/// Ed25519 key, and the signature is valid under that key for the timestamp
/// followed by the body.
pub proof fn law_accepted_exactly_when_properly_signed(
    public_key: Seq<char>,
    signature: Seq<char>,
    timestamp: Seq<char>,
    body: Seq<char>,
)
    ensures
        request_verdict(public_key, signature, timestamp, body) is Valid <==> {
            let sig = hex_decoding(vstd::utf8::encode_utf8(signature));
            let key = hex_decoding(vstd::utf8::encode_utf8(public_key));
            &&& sig is Ok
            &&& key is Ok
            &&& sig->Ok_0.len() == SIGNATURE_LENGTH
            &&& key->Ok_0.len() == PUBLIC_KEY_LENGTH
            &&& ed25519_key_accepts(key->Ok_0)
            &&& ed25519_signature_valid(
                key->Ok_0,
                vstd::utf8::encode_utf8(timestamp + body),
                sig->Ok_0,
            )
        },
{
}

proof fn lemma_encode_utf8_concat(a: Seq<char>, b: Seq<char>)
    ensures
        vstd::utf8::encode_utf8(a + b) == vstd::utf8::encode_utf8(a) + vstd::utf8::encode_utf8(b),
    decreases a.len(),
{
    if a.len() == 0 {
        assert(a + b =~= b);
        assert(vstd::utf8::encode_utf8(a) =~= Seq::<u8>::empty());
        assert(Seq::<u8>::empty() + vstd::utf8::encode_utf8(b) =~= vstd::utf8::encode_utf8(b));
    } else {
        assert((a + b).drop_first() =~= a.drop_first() + b);
        assert((a + b)[0] == a[0]);
        lemma_encode_utf8_concat(a.drop_first(), b);
        let e = vstd::utf8::encode_scalar(a[0] as u32);
        assert(e + (vstd::utf8::encode_utf8(a.drop_first()) + vstd::utf8::encode_utf8(b)) =~= (e
            + vstd::utf8::encode_utf8(a.drop_first())) + vstd::utf8::encode_utf8(b));
    }
}

/// What `verify_discord_signature` answers: it accepts exactly when the
/// signature header decodes from hexadecimal to 64 bytes, the public key
/// decodes to 32 bytes that form an Ed25519 key, and the signature is valid
/// under that key for the UTF-8 bytes of the timestamp followed by the UTF-8
/// bytes of the body, so each non-ASCII character counts with all the bytes
/// Discord signed for it.
pub proof fn law_verification_checks_the_utf8_bytes(
    public_key: Seq<char>,
    signature: Seq<char>,
    timestamp: Seq<char>,
    body: Seq<char>,
    res: Result<(), VerificationError>,
)
    requires
        answers_verdict(res, request_verdict(public_key, signature, timestamp, body)),
    ensures
        res is Ok <==> {
            let sig = hex_decoding(vstd::utf8::encode_utf8(signature));
            let key = hex_decoding(vstd::utf8::encode_utf8(public_key));
            &&& sig is Ok
            &&& key is Ok
            &&& sig->Ok_0.len() == 64
            &&& key->Ok_0.len() == 32
            &&& ed25519_key_accepts(key->Ok_0)
            &&& ed25519_signature_valid(
                key->Ok_0,
                vstd::utf8::encode_utf8(timestamp) + vstd::utf8::encode_utf8(body),
                sig->Ok_0,
            )
        },
{
    lemma_encode_utf8_concat(timestamp, body);
}

/// The case of the hexadecimal letters in the key and in the signature does
/// not decide whether a request is accepted: upper-casing their UTF-8 bytes,
/// as `str::to_ascii_uppercase` does, keeps a valid signature valid and an
/// invalid one invalid.
pub proof fn law_accepted_whatever_the_hex_case(
    public_key: Seq<u8>,
    signature: Seq<u8>,
    message: Seq<u8>,
)
    ensures
        signature_verdict(public_key, signature, message) is Valid <==> signature_verdict(
            ascii_uppercase(public_key),
            ascii_uppercase(signature),
            message,
        ) is Valid,
{
    law_hex_decoding_ignores_case(public_key);
    law_hex_decoding_ignores_case(signature);
}

fn key_array(v: &Vec<u8>) -> (a: [u8; 32])
    requires
        v@.len() == 32,
    ensures
        a@ == v@,
{
    let mut a = [0u8; 32];
    let mut i: usize = 0;
    while i < 32
        invariant
            i <= 32,
            v@.len() == 32,
            a@.len() == 32,
            forall|j: int| 0 <= j < i ==> a@[j] == v@[j],
        decreases 32 - i,
    {
        a[i] = v[i];
        i = i + 1;
    }
    assert(a@ =~= v@);
    a
}

fn signature_array(v: &Vec<u8>) -> (a: [u8; 64])
    requires
        v@.len() == 64,
    ensures
        a@ == v@,
{
    let mut a = [0u8; 64];
    let mut i: usize = 0;
    while i < 64
        invariant
            i <= 64,
            v@.len() == 64,
            a@.len() == 64,
            forall|j: int| 0 <= j < i ==> a@[j] == v@[j],
        decreases 64 - i,
    {
        a[i] = v[i];
        i = i + 1;
    }
    assert(a@ =~= v@);
    a
}

/// Verifies a Discord request signature.
///
/// `public_key` and `signature` are hexadecimal; the signed message is the
/// timestamp followed by the body. The checks run in this order: the
/// signature's encoding and length, the key's encoding and length, the key's
/// validity as a point, and the signature itself.
pub fn verify_discord_signature(
    public_key: &str,
    signature: &str,
    timestamp: &str,
    body: &str,
) -> (res: Result<(), VerificationError>)
    ensures
        answers_verdict(res, request_verdict(public_key@, signature@, timestamp@, body@)),
{
    let signature_bytes = match hex_decode(signature) {
        Ok(v) => v,
        Err(e) => {
            return Err(VerificationError::InvalidSignatureFormat(hex_error_text(e)));
        },
    };
    if signature_bytes.len() != SIGNATURE_LENGTH {
        return Err(
            VerificationError::InvalidSignatureFormat(
                length_mismatch_text(SIGNATURE_LENGTH, signature_bytes.len()),
            ),
        );
    }
    let public_key_bytes = match hex_decode(public_key) {
        Ok(v) => v,
        Err(e) => {
            return Err(VerificationError::InvalidPublicKeyFormat(hex_error_text(e)));
        },
    };
    if public_key_bytes.len() != PUBLIC_KEY_LENGTH {
        return Err(
            VerificationError::InvalidPublicKeyFormat(
                length_mismatch_text(PUBLIC_KEY_LENGTH, public_key_bytes.len()),
            ),
        );
    }
    let key = match Ed25519Key::decode(key_array(&public_key_bytes)) {
        Ok(k) => k,
        Err(e) => {
            return Err(VerificationError::InvalidPublicKeyFormat(e));
        },
    };
    let signature_bytes = signature_array(&signature_bytes);
    let message = timestamp.to_string().concat(body);
    match key.verify(message.as_str().as_bytes(), &signature_bytes) {
        Ok(()) => Ok(()),
        Err(_) => Err(VerificationError::VerificationFailed),
    }
}

} // verus!
