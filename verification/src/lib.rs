//! Content identifiers for a content-addressed store.
//!
//! A [`Hash`] is a 160-bit SHA-1 digest with a canonical text form of forty
//! lowercase hexadecimal digits. A [`Blob`] binds a byte buffer to the digest
//! of exactly those bytes.

pub mod base16;
pub mod digest;
pub mod hash;
pub mod blob;
