//! Why a request, or a configured key, was turned down.

use vstd::prelude::*;
use vstd::string::StringExecFns;

verus! {

/// Why a request was not authenticated. Every one of these ends in the same
/// unauthorized response; the distinction is kept for diagnostics.
#[derive(Clone, Copy, Debug, PartialEq, Eq, Structural)]
pub enum AuthError {
    /// The signature header is not an even number of hexadecimal digits.
    MalformedSignatureEncoding,
    /// The header decodes, but not to the bytes of a signature.
    MalformedSignature,
    /// The signature is well formed and does not match the signed bytes.
    VerificationMismatch,
}

/// Why the configured verification key cannot be used.
#[derive(Clone, Copy, Debug, PartialEq, Eq, Structural)]
pub enum KeyError {
    /// The configured text is not an even number of hexadecimal digits.
    MalformedKeyEncoding,
    /// The text decodes, but not to a public key of the scheme.
    MalformedKey,
}

impl AuthError {
    /// The short text that goes out with the unauthorized response.
    pub open spec fn spec_message(self) -> Seq<char> {
        match self {
            AuthError::MalformedSignatureEncoding => "Invalid signature: not hexadecimal"@,
            AuthError::MalformedSignature => "Invalid signature: malformed"@,
            AuthError::VerificationMismatch => "Invalid signature: verification failed"@,
        }
    }

    /// The short text that goes out with the unauthorized response. It names
    /// the reason and nothing of the key or of the request.
    pub fn message(&self) -> (text: String)
        ensures
            text@ == self.spec_message(),
    {
        match self {
            AuthError::MalformedSignatureEncoding => String::from_str(
                "Invalid signature: not hexadecimal",
            ),
            AuthError::MalformedSignature => String::from_str("Invalid signature: malformed"),
            AuthError::VerificationMismatch => String::from_str(
                "Invalid signature: verification failed",
            ),
        }
    }
}

impl KeyError {
    /// The text of the startup failure.
    pub open spec fn spec_message(self) -> Seq<char> {
        match self {
            KeyError::MalformedKeyEncoding => "Invalid public key: not hexadecimal"@,
            KeyError::MalformedKey => "Invalid public key: malformed"@,
        }
    }

    /// The text of the startup failure.
    pub fn message(&self) -> (text: String)
        ensures
            text@ == self.spec_message(),
    {
        match self {
            KeyError::MalformedKeyEncoding => String::from_str(
                "Invalid public key: not hexadecimal",
            ),
            KeyError::MalformedKey => String::from_str("Invalid public key: malformed"),
        }
    }
}

} // verus!
