//! The signature scheme: keys, signatures, and the check of one against a
//! message. The arithmetic is the `ed25519_dalek` crate's; this module holds
//! the values as plain bytes and states what each call decides.

use crate::encoding::{decode_hex, hex_bytes, is_hex};
use crate::error::{AuthError, KeyError};
use ed25519_dalek::{PublicKey, SignatureError, Verifier};
use vstd::prelude::*;

verus! {

/// Number of bytes in an encoded public key.
pub const PUBLIC_KEY_LENGTH: usize = 32;

/// Number of bytes in an encoded signature.
pub const SIGNATURE_LENGTH: usize = 64;

/// Whether `bytes` has the shape of a signature: sixty-four bytes, the top
/// three bits of the last one clear.
pub open spec fn signature_well_formed(bytes: Seq<u8>) -> bool {
    bytes.len() == SIGNATURE_LENGTH && bytes[SIGNATURE_LENGTH - 1] & 0xE0 == 0
}

/// Whether `ed25519_dalek::PublicKey::from_bytes` accepts `bytes` as a public
/// key: whether they are the encoding of a point of the curve.
pub uninterp spec fn public_key_accepted(bytes: Seq<u8>) -> bool;

/// Whether the public key encoded in `key` accepts `signature` as a signature
/// of `message`, as `ed25519_dalek` decides it.
pub uninterp spec fn ed25519_verifies(key: Seq<u8>, message: Seq<u8>, signature: Seq<u8>) -> bool;

/// The error of `ed25519_dalek`, carried through as it comes.
#[verifier::external_type_specification]
#[verifier::external_body]
pub struct ExSignatureError(SignatureError);

/// Calls `ed25519_dalek::Signature::from_bytes` and gives the signature back
/// as the bytes it holds. Trusted: the call succeeds exactly on sixty-four
/// bytes whose last has its top three bits clear, and keeps the bytes as given.
#[verifier::external_body]
pub(crate) fn parse_signature(bytes: &[u8]) -> (parsed: Result<Vec<u8>, SignatureError>)
    ensures
        parsed is Ok <==> signature_well_formed(bytes@),
        parsed matches Ok(kept) ==> kept@ == bytes@,
{
    match ed25519_dalek::Signature::from_bytes(bytes) {
        Ok(signature) => Ok(signature.to_bytes().to_vec()),
        Err(error) => Err(error),
    }
}

/// Calls `ed25519_dalek::PublicKey::from_bytes` and gives the key back as the
/// bytes it holds. Trusted: the outcome depends on the bytes alone, only
/// thirty-two bytes are ever accepted, and the key keeps the bytes as given.
#[verifier::external_body]
pub(crate) fn parse_public_key(bytes: &[u8]) -> (parsed: Result<Vec<u8>, SignatureError>)
    ensures
        parsed is Ok <==> public_key_accepted(bytes@),
        parsed is Ok ==> bytes@.len() == PUBLIC_KEY_LENGTH,
        parsed matches Ok(kept) ==> kept@ == bytes@,
{
    match PublicKey::from_bytes(bytes) {
        Ok(key) => Ok(key.to_bytes().to_vec()),
        Err(error) => Err(error),
    }
}

/// Calls `ed25519_dalek::PublicKey::verify` on a key and a signature rebuilt
/// from their bytes. Trusted: the outcome depends on the three byte strings
/// alone.
#[verifier::external_body]
pub(crate) fn check_signature(key: &[u8], message: &[u8], signature: &[u8]) -> (checked: Result<
    (),
    SignatureError,
>)
    requires
        public_key_accepted(key@),
        signature_well_formed(signature@),
    ensures
        checked is Ok <==> ed25519_verifies(key@, message@, signature@),
{
    let key = PublicKey::from_bytes(key)?;
    let signature = ed25519_dalek::Signature::from_bytes(signature)?;
    key.verify(message, &signature)
}

/// The bytes of a detached signature, known to have a signature's shape.
#[derive(Debug, PartialEq, Eq)]
pub struct Signature {
    bytes: Vec<u8>,
}

impl View for Signature {
    type V = Seq<u8>;

    closed spec fn view(&self) -> Seq<u8> {
        self.bytes@
    }
}

impl Signature {
    #[verifier::type_invariant]
    spec fn well_formed(self) -> bool {
        signature_well_formed(self.bytes@)
    }

    /// Takes `bytes` as a signature, if they have the shape of one.
    pub fn from_bytes(bytes: &[u8]) -> (parsed: Result<Signature, AuthError>)
        ensures
            parsed is Ok <==> signature_well_formed(bytes@),
            parsed matches Ok(signature) ==> signature@ == bytes@,
            parsed matches Err(reason) ==> reason == AuthError::MalformedSignature,
    {
        match parse_signature(bytes) {
            Ok(kept) => Ok(Signature { bytes: kept }),
            Err(_) => Err(AuthError::MalformedSignature),
        }
    }

    /// Decodes the value of the signature header. Text that is not
    /// hexadecimal is told apart from bytes that are not a signature.
    pub fn from_hex(header: &[u8]) -> (parsed: Result<Signature, AuthError>)
        ensures
            match parsed {
                Ok(signature) => signature_header_outcome(header@) == Ok::<Seq<u8>, AuthError>(
                    signature@,
                ),
                Err(reason) => signature_header_outcome(header@) == Err::<Seq<u8>, AuthError>(
                    reason,
                ),
            },
    {
        match decode_hex(header) {
            Ok(bytes) => Signature::from_bytes(bytes.as_slice()),
            Err(_) => Err(AuthError::MalformedSignatureEncoding),
        }
    }

    /// The sixty-four bytes of the signature.
    pub fn as_bytes(&self) -> (bytes: &[u8])
        ensures
            bytes@ == self@,
            signature_well_formed(self@),
    {
        proof {
            use_type_invariant(self);
        }
        self.bytes.as_slice()
    }
}

/// What decoding a signature header comes to: the signature's bytes, or the
/// reason why there are none.
pub open spec fn signature_header_outcome(header: Seq<u8>) -> Result<Seq<u8>, AuthError> {
    if !is_hex(header) {
        Err(AuthError::MalformedSignatureEncoding)
    } else if !signature_well_formed(hex_bytes(header)) {
        Err(AuthError::MalformedSignature)
    } else {
        Ok(hex_bytes(header))
    }
}

/// What loading a verification key from its hexadecimal text comes to: the
/// key's bytes, or the reason why there are none.
pub open spec fn key_text_outcome(text: Seq<u8>) -> Result<Seq<u8>, KeyError> {
    if !is_hex(text) {
        Err(KeyError::MalformedKeyEncoding)
    } else if !public_key_accepted(hex_bytes(text)) {
        Err(KeyError::MalformedKey)
    } else {
        Ok(hex_bytes(text))
    }
}

/// The public key that signatures are checked against. It is loaded once and
/// never changes; a value of this type always holds a key that the scheme
/// accepts.
#[derive(Debug, PartialEq, Eq)]
pub struct VerificationKey {
    bytes: Vec<u8>,
}

impl View for VerificationKey {
    type V = Seq<u8>;

    closed spec fn view(&self) -> Seq<u8> {
        self.bytes@
    }
}

impl Clone for VerificationKey {
    fn clone(&self) -> (copy: Self)
        ensures
            copy@ == self@,
    {
        proof {
            use_type_invariant(self);
        }
        let bytes = self.bytes.clone();
        assert(bytes@ =~= self.bytes@);
        VerificationKey { bytes }
    }
}

impl VerificationKey {
    #[verifier::type_invariant]
    spec fn accepted(self) -> bool {
        public_key_accepted(self.bytes@) && self.bytes@.len() == PUBLIC_KEY_LENGTH
    }

    /// Takes `bytes` as the verification key, if the scheme accepts them.
    pub fn from_bytes(bytes: &[u8]) -> (loaded: Result<VerificationKey, KeyError>)
        ensures
            loaded is Ok <==> public_key_accepted(bytes@),
            loaded is Ok ==> bytes@.len() == PUBLIC_KEY_LENGTH,
            loaded matches Ok(key) ==> key@ == bytes@,
            loaded matches Err(reason) ==> reason == KeyError::MalformedKey,
    {
        match parse_public_key(bytes) {
            Ok(kept) => Ok(VerificationKey { bytes: kept }),
            Err(_) => Err(KeyError::MalformedKey),
        }
    }

    /// Loads the verification key from its hexadecimal text. Text that is not
    /// hexadecimal is told apart from bytes that are not a key.
    pub fn from_hex(text: &[u8]) -> (loaded: Result<VerificationKey, KeyError>)
        ensures
            match loaded {
                Ok(key) => key_text_outcome(text@) == Ok::<Seq<u8>, KeyError>(key@),
                Err(reason) => key_text_outcome(text@) == Err::<Seq<u8>, KeyError>(reason),
            },
    {
        match decode_hex(text) {
            Ok(bytes) => VerificationKey::from_bytes(bytes.as_slice()),
            Err(_) => Err(KeyError::MalformedKeyEncoding),
        }
    }

    /// The thirty-two bytes of the key.
    pub fn as_bytes(&self) -> (bytes: &[u8])
        ensures
            bytes@ == self@,
            bytes@.len() == PUBLIC_KEY_LENGTH,
            public_key_accepted(self@),
    {
        proof {
            use_type_invariant(self);
        }
        self.bytes.as_slice()
    }

    /// Whether `signature` is a signature of `message` under this key. The
    /// answer depends on the three values alone.
    pub fn verify(&self, message: &[u8], signature: &Signature) -> (valid: bool)
        ensures
            valid == ed25519_verifies(self@, message@, signature@),
    {
        let key = self.as_bytes();
        let signature = signature.as_bytes();
        check_signature(key, message, signature).is_ok()
    }
}

} // verus!
