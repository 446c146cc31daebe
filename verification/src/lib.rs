//! Authenticated media uploads: a verified signer and endpoint builder for a
//! remote media-hosting API.
//!
//! The library builds the canonical signable string for an upload request,
//! digests it with SHA-256, renders the digest as lowercase hexadecimal, and
//! assembles the authenticated endpoint URL.  The surrounding I/O (reading
//! credentials from the environment, streaming the file bytes over HTTP) is
//! left to the caller, which hands the library plain values.

pub mod config;
pub mod decimal;
pub mod endpoint;
pub mod errors;
pub mod request;
pub mod sign;
