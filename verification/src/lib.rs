//! Labeled extract-and-expand key derivation for a hybrid public-key
//! encryption scheme, together with the export-only AEAD capability.
//!
//! The derivation engine frames every extract and expand input with a fixed
//! version label, a ciphersuite identifier and a caller-chosen label, and
//! hands the framed bytes to HKDF.  Correctness is byte-exact: the contracts
//! pin the framing down to the last octet.

pub mod export_only;
pub mod kdf;
