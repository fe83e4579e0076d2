//! The authentication pass that every request goes through before any
//! handler sees it.

use crate::body::{capture_body, captured_bytes, PayloadChunk};
use crate::encoding::{
    hex_bytes, hex_digit_value, is_case_flip, is_hex, lemma_case_flip_same_bytes,
    lemma_digits_of_equal_value, lemma_other_digit_other_bytes, one_bit_apart,
};
use crate::error::{AuthError, KeyError};
use crate::scheme::{
    ed25519_verifies, key_text_outcome, signature_header_outcome, signature_well_formed,
    Signature, VerificationKey,
};
use std::rc::Rc;
use vstd::prelude::*;
use vstd::string::StringSliceAdditionalSpecFns;

verus! {

/// Name of the header that carries the hexadecimal signature.
pub const SIGNATURE_HEADER: &'static str = "X-Signature-Ed25519";

/// Name of the header whose value is signed together with the body.
pub const TIMESTAMP_HEADER: &'static str = "X-Signature-Timestamp";

/// Status code of the response to a request that was not authenticated.
pub const UNAUTHORIZED: u16 = 401;

/// What the authentication pass reads of an inbound request, and the one
/// thing it may change: the body stream.
#[derive(Clone, Debug, PartialEq, Eq)]
pub struct WebhookRequest {
    /// Value of the signature header, if the request has one.
    pub signature: Option<Vec<u8>>,
    /// Value of the timestamp header, if the request has one.
    pub timestamp: Option<Vec<u8>>,
    /// The body stream, not yet read.
    pub payload: Vec<PayloadChunk>,
}

/// The bytes of a header's value; a header that is absent counts as empty.
pub open spec fn header_bytes(value: Option<Vec<u8>>) -> Seq<u8> {
    match value {
        Some(bytes) => bytes@,
        None => Seq::empty(),
    }
}

impl WebhookRequest {
    /// The text of the signature header.
    pub open spec fn signature_text(self) -> Seq<u8> {
        header_bytes(self.signature)
    }

    /// The bytes of the timestamp header, exactly as sent.
    pub open spec fn timestamp_bytes(self) -> Seq<u8> {
        header_bytes(self.timestamp)
    }

    /// The bytes of the body, exactly as sent.
    pub open spec fn body(self) -> Seq<u8> {
        captured_bytes(self.payload@)
    }

    /// Whether the body stream is unread and delivers exactly `body`.
    pub open spec fn carries(self, body: Seq<u8>) -> bool {
        &&& self.payload@.len() == 1
        &&& self.payload@[0] matches PayloadChunk::Data(data)
        &&& data@ == body
    }
}

/// The bytes that the sender signed: the timestamp, then the body, with
/// nothing between them and nothing re-encoded.
pub open spec fn signed_bytes(timestamp: Seq<u8>, body: Seq<u8>) -> Seq<u8> {
    timestamp + body
}

/// The outcome of authenticating a request under the verification key `key`:
/// the header must be hexadecimal, must decode to the shape of a signature,
/// and the signature must match the signed bytes, in that order.
pub open spec fn authentication_outcome(
    key: Seq<u8>,
    signature_text: Seq<u8>,
    timestamp: Seq<u8>,
    body: Seq<u8>,
) -> Result<(), AuthError> {
    match signature_header_outcome(signature_text) {
        Err(reason) => Err(reason),
        Ok(signature) => if ed25519_verifies(key, signed_bytes(timestamp, body), signature) {
            Ok(())
        } else {
            Err(AuthError::VerificationMismatch)
        },
    }
}

/// Assembles the signed message of a request from its timestamp and body.
pub fn signed_message(timestamp: &[u8], body: &[u8]) -> (message: Vec<u8>)
    ensures
        message@ == signed_bytes(timestamp@, body@),
{
    let mut message: Vec<u8> = Vec::new();
    message.extend_from_slice(timestamp);
    message.extend_from_slice(body);
    assert(message@ =~= timestamp@ + body@);
    message
}

/// The configuration of the authentication pass: the one verification key of
/// the process.
#[derive(Debug)]
pub struct Ed25519Authentication {
    public_key: VerificationKey,
}

impl View for Ed25519Authentication {
    type V = Seq<u8>;

    /// The bytes of the verification key.
    closed spec fn view(&self) -> Seq<u8> {
        self.public_key@
    }
}

impl Clone for Ed25519Authentication {
    fn clone(&self) -> (copy: Self)
        ensures
            copy@ == self@,
    {
        Ed25519Authentication { public_key: self.public_key.clone() }
    }
}

impl Ed25519Authentication {
    /// Loads the configuration from the hexadecimal text of the public key. A
    /// key that does not decode is refused here, once, and never per request.
    pub fn new(public_key: &str) -> (loaded: Result<Ed25519Authentication, KeyError>)
        ensures
            match loaded {
                Ok(data) => key_text_outcome(public_key.spec_bytes()) == Ok::<Seq<u8>, KeyError>(
                    data@,
                ),
                Err(reason) => key_text_outcome(public_key.spec_bytes()) == Err::<
                    Seq<u8>,
                    KeyError,
                >(reason),
            },
    {
        match VerificationKey::from_hex(public_key.as_bytes()) {
            Ok(key) => Ok(Ed25519Authentication { public_key: key }),
            Err(reason) => Err(reason),
        }
    }

    /// The verification key.
    pub fn verification_key(&self) -> (key: &VerificationKey)
        ensures
            key@ == self@,
    {
        &self.public_key
    }

    /// Wraps `service` in the authentication pass, under a copy of this
    /// configuration.
    pub fn new_transform<S>(&self, service: S) -> (middleware: Ed25519AuthenticationMiddleware<S>)
        ensures
            middleware.key() == self@,
            middleware.wrapped() == service,
    {
        Ed25519AuthenticationMiddleware { service: Rc::new(service), data: Rc::new(self.clone()) }
    }
}

/// Checks the signature of `req` and, if it holds, puts the body back.
///
/// The body stream is drained to the end in any case. The signature header is
/// decoded, the signed message is assembled from the timestamp header and the
/// captured body, and the signature is checked against it under the key of
/// `data`. On success the request carries the captured body again, as one
/// unread chunk; on failure its stream stays exhausted. The headers are never
/// touched.
pub fn authenticate_request(req: &mut WebhookRequest, data: &Ed25519Authentication) -> (outcome:
    Result<(), AuthError>)
    ensures
        outcome == authentication_outcome(
            data@,
            old(req).signature_text(),
            old(req).timestamp_bytes(),
            old(req).body(),
        ),
        final(req).signature == old(req).signature,
        final(req).timestamp == old(req).timestamp,
        outcome is Ok ==> final(req).carries(old(req).body()),
        outcome is Ok ==> final(req).body() == old(req).body(),
        outcome is Err ==> final(req).payload@.len() == 0,
{
    let body = capture_body(&req.payload);
    req.payload = Vec::new();
    let empty: Vec<u8> = Vec::new();
    let signature = match &req.signature {
        Some(text) => Signature::from_hex(text.as_slice()),
        None => Signature::from_hex(empty.as_slice()),
    };
    let signature = match signature {
        Ok(signature) => signature,
        Err(reason) => {
            return Err(reason);
        },
    };
    let message = match &req.timestamp {
        Some(timestamp) => signed_message(timestamp.as_slice(), body.as_slice()),
        None => signed_message(empty.as_slice(), body.as_slice()),
    };
    if data.verification_key().verify(message.as_slice(), &signature) {
        let mut restored: Vec<PayloadChunk> = Vec::new();
        restored.push(PayloadChunk::Data(body));
        req.payload = restored;
        proof {
            lemma_restored_body_reads_back(*req, old(req).body());
        }
        Ok(())
    } else {
        Err(AuthError::VerificationMismatch)
    }
}

/// The answer to a request that was not authenticated.
#[derive(Clone, Debug, PartialEq, Eq)]
pub struct Rejection {
    /// Why the request was turned down.
    pub reason: AuthError,
    /// Status code of the response.
    pub status: u16,
    /// Body of the response: a short unstructured text.
    pub message: String,
}

/// A service wrapped in the authentication pass.
pub struct Ed25519AuthenticationMiddleware<S> {
    service: Rc<S>,
    data: Rc<Ed25519Authentication>,
}

impl<S> Ed25519AuthenticationMiddleware<S> {
    /// The bytes of the verification key that requests are checked against.
    pub closed spec fn key(&self) -> Seq<u8> {
        (*self.data)@
    }

    /// The service that authenticated requests are forwarded to.
    pub closed spec fn wrapped(&self) -> S {
        *self.service
    }

    /// The service that authenticated requests are forwarded to.
    pub fn service(&self) -> (service: &Rc<S>)
        ensures
            **service == self.wrapped(),
    {
        &self.service
    }

    /// Decides what becomes of `req`: `Ok` if it is to be forwarded to the
    /// wrapped service, body restored; else the unauthorized answer, and the
    /// service is not to see the request.
    pub fn call(&self, req: &mut WebhookRequest) -> (verdict: Result<(), Rejection>)
        ensures
            match authentication_outcome(
                self.key(),
                old(req).signature_text(),
                old(req).timestamp_bytes(),
                old(req).body(),
            ) {
                Ok(_) => {
                    &&& verdict is Ok
                    &&& final(req).carries(old(req).body())
                    &&& final(req).body() == old(req).body()
                },
                Err(reason) => {
                    &&& verdict matches Err(rejection)
                    &&& rejection.reason == reason
                    &&& rejection.status == UNAUTHORIZED
                    &&& rejection.message@ == reason.spec_message()
                    &&& final(req).payload@.len() == 0
                },
            },
            final(req).signature == old(req).signature,
            final(req).timestamp == old(req).timestamp,
    {
        match authenticate_request(req, &*self.data) {
            Ok(_) => Ok(()),
            Err(reason) => Err(
                Rejection { reason, status: UNAUTHORIZED, message: reason.message() },
            ),
        }
    }
}

/// A request is authenticated whenever its signature header is the
/// hexadecimal text of a well-formed signature that the key accepts for the
/// timestamp followed by the body.
pub proof fn lemma_matching_signature_is_accepted(
    key: Seq<u8>,
    signature_text: Seq<u8>,
    timestamp: Seq<u8>,
    body: Seq<u8>,
)
    requires
        is_hex(signature_text),
        signature_well_formed(hex_bytes(signature_text)),
        ed25519_verifies(key, timestamp + body, hex_bytes(signature_text)),
    ensures
        authentication_outcome(key, signature_text, timestamp, body) == Ok::<(), AuthError>(()),
{
}

/// A request whose signature header is not hexadecimal is rejected, whatever
/// else it holds, and the signature is never checked.
pub proof fn lemma_non_hex_signature_is_rejected(
    key: Seq<u8>,
    signature_text: Seq<u8>,
    timestamp: Seq<u8>,
    body: Seq<u8>,
)
    requires
        !is_hex(signature_text),
    ensures
        authentication_outcome(key, signature_text, timestamp, body) == Err::<(), AuthError>(
            AuthError::MalformedSignatureEncoding,
        ),
{
}

/// A request without a signature header is rejected: the empty text decodes
/// to no bytes, which are not a signature.
pub proof fn lemma_missing_signature_is_rejected(key: Seq<u8>, req: WebhookRequest)
    requires
        req.signature is None,
    ensures
        authentication_outcome(key, req.signature_text(), req.timestamp_bytes(), req.body())
            == Err::<(), AuthError>(AuthError::MalformedSignature),
{
    let text = req.signature_text();
    assert(is_hex(text));
    assert(hex_bytes(text).len() == 0);
}

/// A request without a timestamp header is judged on its body alone: it is
/// authenticated exactly if its signature matches the body with nothing in
/// front of it.
pub proof fn lemma_missing_timestamp_signs_body_alone(key: Seq<u8>, req: WebhookRequest)
    requires
        req.timestamp is None,
    ensures
        signed_bytes(req.timestamp_bytes(), req.body()) == req.body(),
        authentication_outcome(key, req.signature_text(), req.timestamp_bytes(), req.body())
            is Ok <==> {
            &&& is_hex(req.signature_text())
            &&& signature_well_formed(hex_bytes(req.signature_text()))
            &&& ed25519_verifies(key, req.body(), hex_bytes(req.signature_text()))
        },
{
    assert(Seq::<u8>::empty() + req.body() =~= req.body());
}

/// A body stream that carries `body` as one unread chunk delivers exactly
/// `body`: what is restored onto a request is read back byte for byte.
pub proof fn lemma_restored_body_reads_back(req: WebhookRequest, body: Seq<u8>)
    requires
        req.carries(body),
    ensures
        req.body() == body,
{
    let payload = req.payload@;
    assert(payload.drop_last().len() == 0);
    assert(captured_bytes(payload.drop_last()) =~= Seq::<u8>::empty());
    assert(Seq::<u8>::empty() + payload.last().bytes() =~= body);
}

/// Authenticating a request again, after its body was restored, comes to the
/// same outcome as the first time: nothing but the key, the two headers and
/// the body bytes decides.
pub proof fn lemma_reauthentication_agrees(
    key: Seq<u8>,
    before: WebhookRequest,
    after: WebhookRequest,
)
    requires
        after.signature == before.signature,
        after.timestamp == before.timestamp,
        after.carries(before.body()),
    ensures
        after.body() == before.body(),
        authentication_outcome(key, after.signature_text(), after.timestamp_bytes(), after.body())
            == authentication_outcome(
            key,
            before.signature_text(),
            before.timestamp_bytes(),
            before.body(),
        ),
{
    lemma_restored_body_reads_back(after, before.body());
}

/// Alter one bit of a hexadecimal signature header. Where the bit tells the
/// case of a letter, the header still stands for the same signature and the
/// outcome is what it was. Anywhere else the request is authenticated only if
/// the altered header stands for other bytes, and the key accepts those too
/// as a signature of the same message.
pub proof fn lemma_one_bit_of_signature_header(
    key: Seq<u8>,
    signature_text: Seq<u8>,
    altered: Seq<u8>,
    at: int,
    timestamp: Seq<u8>,
    body: Seq<u8>,
)
    requires
        is_hex(signature_text),
        altered.len() == signature_text.len(),
        0 <= at < signature_text.len(),
        forall|j: int| 0 <= j < signature_text.len() && j != at ==> altered[j] == signature_text[j],
        one_bit_apart(signature_text[at], altered[at]),
    ensures
        is_case_flip(signature_text[at], altered[at]) ==> authentication_outcome(
            key,
            altered,
            timestamp,
            body,
        ) == authentication_outcome(key, signature_text, timestamp, body),
        !is_case_flip(signature_text[at], altered[at]) && authentication_outcome(
            key,
            altered,
            timestamp,
            body,
        ) is Ok ==> hex_bytes(altered) != hex_bytes(signature_text) && ed25519_verifies(
            key,
            signed_bytes(timestamp, body),
            hex_bytes(altered),
        ),
{
    let (c, d) = (signature_text[at], altered[at]);
    if is_case_flip(c, d) {
        lemma_case_flip_same_bytes(signature_text, altered, at);
    } else if is_hex(altered) {
        assert(c != d) by (bit_vector)
            requires
                c ^ d != 0,
        ;
        assert(hex_digit_value(c) is Some);
        lemma_digits_of_equal_value(c, d);
        lemma_other_digit_other_bytes(signature_text, altered, at);
    }
}

} // verus!
