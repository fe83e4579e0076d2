//! Authentication of signed webhook callbacks.
//!
//! Every inbound request carries a detached Ed25519 signature, hex-encoded in
//! one header, over the bytes of a timestamp header followed by the raw body.
//! This crate rebuilds the signed bytes, checks the signature against the one
//! verification key of the process, and hands the body back untouched.

pub mod body;
pub mod encoding;
pub mod error;
pub mod interaction;
pub mod middleware;
pub mod scheme;
