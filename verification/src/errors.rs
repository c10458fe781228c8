//! The error surface of the adapter.
//!
//! Every failure is fatal to the handshake attempt and carries a
//! human-readable diagnostic; the adapter never retries and never recovers
//! partially. The kind records which protocol step failed.
use vstd::prelude::*;

verus! {

/// Which step of the exchange failed.
#[derive(Clone, Copy, Debug, PartialEq, Eq, Structural)]
pub enum ErrorKind {
    /// Key generation or key export failed.
    Setup,
    /// The peer public key was rejected or encapsulation failed.
    Encapsulation,
    /// The peer ciphertext was rejected or decapsulation failed.
    Decapsulation,
    /// Raw classical key import or agreement failed.
    ClassicalAgreement,
}

/// A fatal key-exchange error: the step that failed and the diagnostic text
/// reported for it.
#[derive(Clone, Debug)]
pub struct KxError {
    kind: ErrorKind,
    detail: String,
}

impl KxError {
    /// Which step failed.
    pub closed spec fn spec_kind(&self) -> ErrorKind {
        self.kind
    }

    /// The diagnostic text.
    pub closed spec fn spec_detail(&self) -> Seq<char> {
        self.detail@
    }

    /// Wrap a diagnostic into a key-exchange error of the given kind.
    pub fn new(kind: ErrorKind, detail: String) -> (e: KxError)
        ensures
            e.spec_kind() == kind,
            e.spec_detail() == detail@,
    {
        KxError { kind, detail }
    }

    /// Which step failed.
    pub fn kind(&self) -> (r: ErrorKind)
        ensures
            r == self.spec_kind(),
    {
        self.kind
    }

    /// The diagnostic text.
    pub fn detail(&self) -> (r: &String)
        ensures
            r@ == self.spec_detail(),
    {
        &self.detail
    }
}

} // verus!
