//! The per-handshake key-exchange session and the two-phase exchange
//! protocol.
//!
//! A session is created from the engine's key-generation outputs, consumed by
//! exactly one completion, and dropped. The engine itself — key generation by
//! algorithm name, encapsulation, decapsulation, named-parameter export — is
//! driven by the host, which hands this module the engine's outputs as plain
//! bytes and receives the bytes to hand back; the classical raw agreement is
//! called from here. Every hybrid value that crosses the engine boundary
//! passes through the layout transforms that the group descriptor selects.
use vstd::prelude::*;
use crate::engine;
use crate::errors::ErrorKind;
use crate::errors::KxError;
use crate::groups::KxGroup;
use crate::groups::Layout;
use crate::groups::NamedGroup;
use crate::groups::X25519_LEN;
use crate::layout::move_prefix_to_end;
use crate::layout::move_suffix_to_front;
use crate::layout::rotate_left;
use crate::layout::swap_halves;
use crate::layout::swap_halves_spec;
use crate::layout::lemma_reorder_round_trip;
use crate::layout::lemma_swap_halves_involution;

verus! {

/// The length in bytes of an encoded ML-KEM-768 public key.
pub const MLKEM768_PUB_LEN: usize = 1184;

/// The length in bytes of the hybrid group's wire public key: the encoded
/// ML-KEM-768 key and the raw X25519 key, concatenated.
pub const X25519MLKEM768_PUB_LEN: usize = MLKEM768_PUB_LEN + X25519_LEN;

/// The exact wire length of a peer public key for each group, which the
/// responder path checks before handing the bytes to the engine's decoder.
pub open spec fn spec_peer_pub_len(g: NamedGroup) -> nat {
    match g {
        NamedGroup::MlKem768 => MLKEM768_PUB_LEN as nat,
        NamedGroup::X25519MlKem768 => X25519MLKEM768_PUB_LEN as nat,
        NamedGroup::X25519 => X25519_LEN as nat,
    }
}

/// The exact wire length of a peer public key for the given group.
pub fn peer_pub_len(g: NamedGroup) -> (r: usize)
    ensures
        r == spec_peer_pub_len(g),
{
    match g {
        NamedGroup::MlKem768 => MLKEM768_PUB_LEN,
        NamedGroup::X25519MlKem768 => X25519MLKEM768_PUB_LEN,
        NamedGroup::X25519 => X25519_LEN,
    }
}

impl KxGroup {
    /// Whether values crossing the engine boundary must be reordered: only
    /// hybrid values of a legacy-layout engine are.
    pub open spec fn spec_needs_reorder(&self) -> bool {
        self.spec_is_hybrid() && self.spec_layout() == Layout::Legacy
    }

    /// The wire form of an engine-native value (a public key or a
    /// ciphertext): under the legacy convention the classical segment moves
    /// from the front to the end.
    pub open spec fn spec_wire_of_engine(&self, s: Seq<u8>) -> Seq<u8> {
        if self.spec_needs_reorder() && X25519_LEN <= s.len() {
            rotate_left(s, X25519_LEN as int)
        } else {
            s
        }
    }

    /// The engine-native form of a wire value: under the legacy convention
    /// the classical segment moves from the end back to the front.
    pub open spec fn spec_engine_of_wire(&self, s: Seq<u8>) -> Seq<u8> {
        if self.spec_needs_reorder() && X25519_LEN <= s.len() {
            rotate_left(s, s.len() - X25519_LEN)
        } else {
            s
        }
    }

    /// The caller-visible shared secret for an engine-derived one: under the
    /// legacy convention the two concatenated halves exchange places.
    pub open spec fn spec_secret_of_engine(&self, s: Seq<u8>) -> Seq<u8> {
        if self.spec_needs_reorder() {
            swap_halves_spec(s)
        } else {
            s
        }
    }

    /// Whether values crossing the engine boundary must be reordered.
    pub fn needs_reorder(&self) -> (r: bool)
        ensures
            r == self.spec_needs_reorder(),
    {
        self.is_hybrid() && self.layout() == Layout::Legacy
    }
}

/// A shared secret derived by a completed exchange.
#[derive(Clone, Debug)]
pub struct SharedSecret {
    secret: Vec<u8>,
}

impl SharedSecret {
    /// The secret bytes.
    pub closed spec fn spec_bytes(&self) -> Seq<u8> {
        self.secret@
    }

    /// Wraps derived secret bytes.
    pub fn new(bytes: Vec<u8>) -> (s: SharedSecret)
        ensures
            s.spec_bytes() == bytes@,
    {
        SharedSecret { secret: bytes }
    }

    /// The secret bytes.
    pub fn secret_bytes(&self) -> (r: &[u8])
        ensures
            r@ == self.spec_bytes(),
    {
        self.secret.as_slice()
    }
}

/// The result of the responder-side combined operation: the group, the
/// wire-visible ciphertext standing as this side's public value, and the
/// derived secret. Immutable once produced.
#[derive(Clone, Debug)]
pub struct CompletedKeyExchange {
    /// The group the exchange was made for.
    pub group: NamedGroup,
    /// The wire-visible ciphertext bytes.
    pub pub_key: Vec<u8>,
    /// The derived shared secret.
    pub secret: SharedSecret,
}

/// An initiator-side key-exchange session: the wire-visible public key and,
/// for hybrid groups, the classical sub-component, bound to the group
/// descriptor they were generated for. The engine keeps the private key; the
/// session never holds private bytes.
#[derive(Debug)]
pub struct KeyExchange {
    kx_group: KxGroup,
    pub_key: Vec<u8>,
    classical_pub_key: Option<Vec<u8>>,
}

impl KeyExchange {
    /// The descriptor of the group this session belongs to.
    pub closed spec fn spec_kx_group(&self) -> KxGroup {
        self.kx_group
    }

    /// The wire-visible public key.
    pub closed spec fn spec_pub_key(&self) -> Seq<u8> {
        self.pub_key@
    }

    /// The raw classical public sub-component, for hybrid groups.
    pub closed spec fn spec_classical_pub_key(&self) -> Option<Seq<u8>> {
        match self.classical_pub_key {
            Some(v) => Some(v@),
            None => None,
        }
    }

    /// A session is well formed when it carries a classical sub-component
    /// exactly for the hybrid group.
    pub open spec fn wf(&self) -> bool {
        self.spec_kx_group().spec_is_hybrid() <==> self.spec_classical_pub_key() is Some
    }
}

impl KxGroup {
    /// The initiator-side half of `start` that follows the engine's key
    /// generation: takes the encoded public key the engine exported and, for
    /// hybrid groups, the exported classical sub-component, and produces the
    /// session holding the wire-visible form of both.
    ///
    /// A hybrid keygen that exported no classical component, or an exported
    /// hybrid key shorter than its classical segment, is a setup failure.
    pub fn start_finish(
        self,
        engine_pub_key: Vec<u8>,
        engine_classical_pub_key: Option<Vec<u8>>,
    ) -> (r: Result<KeyExchange, KxError>)
        ensures
            r is Ok <==> {
                &&& self.spec_is_hybrid() ==> engine_classical_pub_key is Some
                &&& self.spec_needs_reorder() ==> X25519_LEN
                    <= engine_pub_key@.len()
            },
            r matches Ok(kx) ==> {
                &&& kx.wf()
                &&& kx.spec_kx_group() == self
                &&& kx.spec_pub_key() == self.spec_wire_of_engine(engine_pub_key@)
                &&& self.spec_is_hybrid() ==> kx.spec_classical_pub_key() == Some(
                    engine_classical_pub_key->Some_0@,
                )
            },
            r matches Err(e) ==> e.spec_kind() == ErrorKind::Setup,
    {
        let hybrid = self.is_hybrid();
        if hybrid && engine_classical_pub_key.is_none() {
            return Err(
                KxError::new(
                    ErrorKind::Setup,
                    "hybrid key generation exported no classical component".to_owned(),
                ),
            );
        }
        let pub_key = if self.needs_reorder() {
            if engine_pub_key.len() < self.classical_len() {
                return Err(
                    KxError::new(
                        ErrorKind::Setup,
                        "exported hybrid public key shorter than its classical segment".to_owned(),
                    ),
                );
            }
            move_prefix_to_end(engine_pub_key.as_slice(), self.classical_len())
        } else {
            engine_pub_key
        };
        let classical_pub_key = if hybrid {
            engine_classical_pub_key
        } else {
            None
        };
        Ok(KeyExchange { kx_group: self, pub_key, classical_pub_key })
    }

    /// The responder-side half of `start_and_complete` that precedes the
    /// engine: checks the peer's wire public key for the exact length the
    /// group prescribes and re-expresses it in the engine's native order for
    /// the engine's public-key decoder.
    pub fn start_and_complete_prepare(&self, peer_pub_key: &[u8]) -> (r: Result<Vec<u8>, KxError>)
        ensures
            r is Ok <==> peer_pub_key@.len() == spec_peer_pub_len(self.spec_name()),
            r matches Ok(v) ==> v@ == self.spec_engine_of_wire(peer_pub_key@),
            r matches Err(e) ==> e.spec_kind() == ErrorKind::Encapsulation,
    {
        if peer_pub_key.len() != peer_pub_len(self.name()) {
            return Err(
                KxError::new(
                    ErrorKind::Encapsulation,
                    "peer public key length does not match the group".to_owned(),
                ),
            );
        }
        if self.needs_reorder() {
            Ok(move_suffix_to_front(peer_pub_key, self.classical_len()))
        } else {
            Ok(vstd::slice::slice_to_vec(peer_pub_key))
        }
    }

    /// The responder-side half of `start_and_complete` that follows the
    /// engine's encapsulation: wraps the engine's ciphertext and derived
    /// secret into the wire-visible completed exchange, reordering both under
    /// the legacy convention.
    pub fn start_and_complete_finish(
        &self,
        engine_ciphertext: Vec<u8>,
        engine_secret: Vec<u8>,
    ) -> (r: Result<CompletedKeyExchange, KxError>)
        ensures
            r is Ok <==> (self.spec_needs_reorder() ==> X25519_LEN
                <= engine_ciphertext@.len()),
            r matches Ok(c) ==> {
                &&& c.group == self.spec_name()
                &&& c.pub_key@ == self.spec_wire_of_engine(engine_ciphertext@)
                &&& c.secret.spec_bytes() == self.spec_secret_of_engine(engine_secret@)
            },
            r matches Err(e) ==> e.spec_kind() == ErrorKind::Encapsulation,
    {
        let (pub_key, secret) = if self.needs_reorder() {
            if engine_ciphertext.len() < self.classical_len() {
                return Err(
                    KxError::new(
                        ErrorKind::Encapsulation,
                        "engine ciphertext shorter than the classical segment".to_owned(),
                    ),
                );
            }
            (
                move_prefix_to_end(engine_ciphertext.as_slice(), self.classical_len()),
                swap_halves(engine_secret.as_slice()),
            )
        } else {
            (engine_ciphertext, engine_secret)
        };
        Ok(
            CompletedKeyExchange {
                group: self.name(),
                pub_key,
                secret: SharedSecret::new(secret),
            },
        )
    }
}

impl KeyExchange {
    /// The wire-visible public key of this session.
    pub fn pub_key(&self) -> (r: &[u8])
        ensures
            r@ == self.spec_pub_key(),
    {
        self.pub_key.as_slice()
    }

    /// The group this session belongs to.
    pub fn group(&self) -> (r: NamedGroup)
        ensures
            r == self.spec_kx_group().spec_name(),
    {
        self.kx_group.name()
    }

    /// The classical sub-component of a hybrid session: the classical group
    /// identifier and its raw public bytes. A non-hybrid session has none.
    pub fn hybrid_component(&self) -> (r: Option<(NamedGroup, Vec<u8>)>)
        ensures
            r is Some <==> self.spec_kx_group().spec_is_hybrid() && self.spec_classical_pub_key()
                is Some,
            r matches Some(p) ==> p.0 == NamedGroup::X25519 && Some(p.1@)
                == self.spec_classical_pub_key(),
    {
        if self.kx_group.is_hybrid() {
            match &self.classical_pub_key {
                Some(v) => Some((NamedGroup::X25519, vstd::slice::slice_to_vec(v.as_slice()))),
                None => None,
            }
        } else {
            None
        }
    }

    /// The initiator-side half of `complete` that precedes the engine: the
    /// peer's wire ciphertext re-expressed in the engine's native order,
    /// ready for decapsulation with this session's private key. A wire value
    /// too short to carry the classical segment is a decapsulation failure;
    /// any further validation is the engine's.
    pub fn complete_prepare(&self, peer_pub_key: &[u8]) -> (r: Result<Vec<u8>, KxError>)
        ensures
            r is Ok <==> (self.spec_kx_group().spec_needs_reorder() ==> X25519_LEN
                <= peer_pub_key@.len()),
            r matches Ok(v) ==> v@ == self.spec_kx_group().spec_engine_of_wire(peer_pub_key@),
            r matches Err(e) ==> e.spec_kind() == ErrorKind::Decapsulation,
    {
        if self.kx_group.needs_reorder() {
            if peer_pub_key.len() < self.kx_group.classical_len() {
                return Err(
                    KxError::new(
                        ErrorKind::Decapsulation,
                        "peer ciphertext shorter than the classical segment".to_owned(),
                    ),
                );
            }
            Ok(move_suffix_to_front(peer_pub_key, self.kx_group.classical_len()))
        } else {
            Ok(vstd::slice::slice_to_vec(peer_pub_key))
        }
    }

    /// The initiator-side half of `complete` that follows the engine's
    /// decapsulation: the caller-visible shared secret for the engine-derived
    /// one, with its halves swapped under the legacy convention.
    pub fn complete_finish(&self, engine_secret: Vec<u8>) -> (r: SharedSecret)
        ensures
            r.spec_bytes() == self.spec_kx_group().spec_secret_of_engine(engine_secret@),
    {
        if self.kx_group.needs_reorder() {
            SharedSecret::new(swap_halves(engine_secret.as_slice()))
        } else {
            SharedSecret::new(engine_secret)
        }
    }

    /// Completes the classical half of a hybrid exchange: performs the raw
    /// elliptic-curve agreement between this session's extracted classical
    /// private-key bytes and the peer's raw classical public key, and erases
    /// the private-key buffer in place before returning, whatever the
    /// outcome. The classical secret is the agreement itself under either
    /// layout convention; only concatenated hybrid values are reordered.
    ///
    /// Calling this for a non-hybrid group is a contract violation, excluded
    /// here rather than reported.
    pub fn complete_hybrid_component(
        &self,
        classical_priv_key: &mut Vec<u8>,
        peer_pub_key: &[u8],
    ) -> (r: Result<SharedSecret, KxError>)
        requires
            self.spec_kx_group().spec_is_hybrid(),
        ensures
            final(classical_priv_key)@.len() == old(classical_priv_key)@.len(),
            forall|i: int|
                0 <= i < final(classical_priv_key)@.len() ==> final(classical_priv_key)@[i] == 0u8,
            r matches Ok(s) ==> {
                &&& s.spec_bytes() == engine::x25519_shared(
                    old(classical_priv_key)@,
                    peer_pub_key@,
                )
                &&& s.spec_bytes().len() == X25519_LEN
            },
            r is Ok ==> old(classical_priv_key)@.len() == X25519_LEN && peer_pub_key@.len()
                == X25519_LEN,
            r matches Err(e) ==> e.spec_kind() == ErrorKind::ClassicalAgreement,
    {
        let derived = engine::x25519_agree(classical_priv_key.as_slice(), peer_pub_key);
        engine::wipe(classical_priv_key);
        match derived {
            Ok(secret) => Ok(SharedSecret::new(secret)),
            Err(detail) => Err(KxError::new(ErrorKind::ClassicalAgreement, detail)),
        }
    }
}

/// Law: the forward and reverse boundary transforms of one descriptor cancel,
/// in either order, on every value long enough to carry the classical
/// segment; and for a non-hybrid group each transform is the identity. So the
/// wire public key an initiator publishes decodes back to exactly the bytes
/// its engine exported, and the wire ciphertext a responder publishes decodes
/// back to exactly the bytes its engine emitted, for every group and both
/// layout conventions.
pub proof fn lemma_exchange_transforms_cancel(g: KxGroup, engine_value: Seq<u8>)
    requires
        X25519_LEN <= engine_value.len(),
    ensures
        g.spec_engine_of_wire(g.spec_wire_of_engine(engine_value)) == engine_value,
        g.spec_wire_of_engine(g.spec_engine_of_wire(engine_value)) == engine_value,
        !g.spec_is_hybrid() ==> g.spec_wire_of_engine(engine_value) == engine_value
            && g.spec_engine_of_wire(engine_value) == engine_value,
{
    if g.spec_needs_reorder() {
        lemma_reorder_round_trip(engine_value, X25519_LEN as int);
    }
}

/// Law: applying the secret-half transform twice returns any even-length
/// secret unchanged, under either layout convention.
pub proof fn lemma_secret_transform_involution(g: KxGroup, s: Seq<u8>)
    requires
        s.len() % 2 == 0,
    ensures
        g.spec_secret_of_engine(g.spec_secret_of_engine(s)) == s,
{
    if g.spec_needs_reorder() {
        lemma_swap_halves_involution(s);
    }
}

/// Law (round-trip correctness at the adapter boundary): in a full exchange,
/// the bytes each side hands its engine are exactly the engine-native bytes
/// the other side's engine produced, and the two sides apply one and the same
/// transform to the engine-derived secret — so when the engine's
/// decapsulation returns the secret its encapsulation produced, the two
/// callers hold byte-for-byte equal secrets. Holds for every group and both
/// layout conventions; the engine's own KEM correctness is assumed at its
/// interface.
pub proof fn lemma_exchange_round_trip(
    g: KxGroup,
    engine_pub_key: Seq<u8>,
    engine_ciphertext: Seq<u8>,
    encap_secret: Seq<u8>,
    decap_secret: Seq<u8>,
)
    requires
        X25519_LEN <= engine_pub_key.len(),
        X25519_LEN <= engine_ciphertext.len(),
        decap_secret == encap_secret,
    ensures
        g.spec_engine_of_wire(g.spec_wire_of_engine(engine_pub_key)) == engine_pub_key,
        g.spec_engine_of_wire(g.spec_wire_of_engine(engine_ciphertext)) == engine_ciphertext,
        g.spec_secret_of_engine(decap_secret) == g.spec_secret_of_engine(encap_secret),
{
    lemma_exchange_transforms_cancel(g, engine_pub_key);
    lemma_exchange_transforms_cancel(g, engine_ciphertext);
}

} // verus!
