//! The export-only AEAD capability.
//!
//! A ciphersuite may legitimately provide no bulk cipher and still derive
//! exported secrets.  That choice is modeled as an AEAD whose parameter
//! sizes are fixed degenerate constants and whose encrypt and decrypt
//! operations are defined to fail fatally; the descriptor here carries the
//! sizes and the reserved identifier.

use vstd::prelude::*;

verus! {

/// An AEAD selection: a 2-byte identifier fixed by the wire protocol.
pub trait Aead {
    /// The identifier as a specification-level constant.
    spec fn spec_aead_id() -> u16;

    /// The 2-byte identifier of this AEAD, exposed for ciphersuite
    /// negotiation.
    fn aead_id() -> (r: u16)
        ensures
            r == Self::spec_aead_id(),
    ;
}

/// The inert cipher behind the export-only AEAD.  Construction accepts and
/// discards any key material; the value carries no state.  Its encrypt and
/// decrypt operations terminate the process rather than return, so they are
/// not offered here.
#[derive(Clone)]
pub struct EmptyAeadImpl;

impl EmptyAeadImpl {
    /// Accepts and discards arbitrary key material: no real key exists.
    pub fn new(_key: &[u8]) -> (r: EmptyAeadImpl) {
        EmptyAeadImpl
    }

    /// Key size in bytes: zero, as no key material is retained.
    pub fn key_size() -> (r: usize)
        ensures
            r == 0,
    {
        0
    }

    /// Nonce size in bytes.  It is kept strictly larger than the 8-byte
    /// sequence counter a caller would convert to a nonce, so the caller's
    /// counter arithmetic cannot underflow before the deliberate fatal
    /// failure of the operations is reached.
    pub fn nonce_size() -> (r: usize)
        ensures
            r == 128,
            r > 8,
    {
        128
    }

    /// Tag size in bytes: zero, as nothing is ever authenticated.
    pub fn tag_size() -> (r: usize)
        ensures
            r == 0,
    {
        0
    }
}

/// The export-only AEAD selection: usable solely to derive exported
/// secrets, never for bulk encryption.
pub struct ExportOnlyAead;

impl Aead for ExportOnlyAead {
    open spec fn spec_aead_id() -> u16 {
        0xFFFF
    }

    /// The reserved export-only identifier.
    fn aead_id() -> (r: u16) {
        0xFFFF
    }
}

} // verus!
