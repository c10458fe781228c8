//! Key-exchange groups for a TLS 1.3 handshake, backed by a post-quantum
//! key-encapsulation mechanism and, for hybrid groups, a classical
//! elliptic-curve agreement.
//!
//! The crate holds the adapter logic between a TLS library's key-exchange
//! abstraction and an external cryptographic engine: group descriptors, the
//! two-phase exchange protocol, and the byte-layout compatibility shim that
//! reorders the classical and post-quantum segments of hybrid values when the
//! installed engine uses the legacy layout convention.
pub mod engine;
pub mod errors;
pub mod groups;
pub mod layout;
pub mod session;
