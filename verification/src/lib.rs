//! Decoding pipeline for on-chain interface-description accounts.
//!
//! A raw account record wraps a compressed JSON document: a fixed 8-byte
//! discriminator tag, a 32-byte authority key, and a length-prefixed
//! zlib-compressed payload. The library strips the tag, decodes the envelope,
//! inflates the payload, and re-emits the contained JSON document in its
//! canonical pretty-printed form. Every stage is a pure transform with an
//! explicit contract; each failure is reported as a distinct error kind.

pub mod address;
pub mod cluster;
pub mod decompress;
pub mod document;
pub mod envelope;
pub mod errors;
pub mod laws;
pub mod pipeline;
