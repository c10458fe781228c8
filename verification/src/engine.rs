//! The engine binding: the few calls into the external cryptographic library
//! that the verified logic makes, each behind a contract.
//!
//! The KEM half of the engine (keygen by algorithm name, encapsulation,
//! decapsulation, named-parameter export) has no safe binding and is driven
//! by the host application; the adapter receives its outputs as plain bytes.
//! The classical half (raw X25519 agreement) and the secure erasure of
//! extracted key material are called from here.
use vstd::prelude::*;
use crate::groups::X25519_LEN;
use openssl::derive::Deriver;
use openssl::pkey::Id;
use openssl::pkey::PKey;
use zeroize::Zeroize;

verus! {

/// The X25519 shared secret the engine derives from a raw private key and a
/// raw peer public key. The agreement is a fixed function of the two byte
/// strings alone, so the result only carries a name here.
pub uninterp spec fn x25519_shared(priv_key: Seq<u8>, peer_pub_key: Seq<u8>) -> Seq<u8>;

/// Raw elliptic-curve agreement: derives the X25519 shared secret for a raw
/// private key and a raw peer public key.
///
/// Relies on openssl's `PKey::private_key_from_raw_bytes` and
/// `PKey::public_key_from_raw_bytes`, which reject byte strings that are not
/// a valid raw X25519 key (in particular any length other than 32), and on
/// `Deriver` (`EVP_PKEY_derive`), whose X25519 agreement is a deterministic
/// function of the two keys and yields a 32-byte secret. Every failure is
/// reported as `Err`; none of the calls panics.
#[verifier::external_body]
pub(crate) fn x25519_agree(priv_key: &[u8], peer_pub_key: &[u8]) -> (r: Result<Vec<u8>, String>)
    ensures
        r matches Ok(s) ==> s@ == x25519_shared(priv_key@, peer_pub_key@),
        r matches Ok(s) ==> s@.len() == X25519_LEN,
        r is Ok ==> priv_key@.len() == X25519_LEN && peer_pub_key@.len() == X25519_LEN,
{
    let go = || -> Result<Vec<u8>, openssl::error::ErrorStack> {
        let sk = PKey::private_key_from_raw_bytes(priv_key, Id::X25519)?;
        let pk = PKey::public_key_from_raw_bytes(peer_pub_key, Id::X25519)?;
        let mut deriver = Deriver::new(&sk)?;
        deriver.set_peer(&pk)?;
        deriver.derive_to_vec()
    };
    go().map_err(|e| format!("{e}"))
}

/// Securely erases a byte buffer in place.
///
/// Relies on zeroize's `<[u8] as Zeroize>::zeroize`: every byte of the slice
/// is overwritten with zero through a volatile write that the compiler may
/// not elide. The buffer keeps its length.
#[verifier::external_body]
pub(crate) fn wipe(buf: &mut Vec<u8>)
    ensures
        final(buf)@.len() == old(buf)@.len(),
        forall|i: int| 0 <= i < final(buf)@.len() ==> final(buf)@[i] == 0u8,
{
    buf.as_mut_slice().zeroize();
}

} // verus!
