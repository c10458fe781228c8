//! Key-exchange group descriptors.
//!
//! A descriptor is an immutable value naming a key-exchange group and the
//! engine-side algorithm identifier it maps to. For the hybrid group it also
//! records the byte-layout convention the installed engine uses, decided once
//! at startup and never renegotiated.
use vstd::prelude::*;

verus! {

/// A key-exchange group identifier on the wire, as the protocol defines it.
#[derive(Clone, Copy, Debug, PartialEq, Eq, Structural)]
pub enum NamedGroup {
    /// The pure ML-KEM-768 key-exchange group.
    MlKem768,
    /// The X25519 + ML-KEM-768 hybrid key-exchange group.
    X25519MlKem768,
    /// The classical X25519 elliptic-curve group.
    X25519,
}

/// A TLS protocol version, as far as this adapter distinguishes them.
#[derive(Clone, Copy, Debug, PartialEq, Eq, Structural)]
pub enum ProtocolVersion {
    /// TLS 1.2.
    Tls12,
    /// TLS 1.3.
    Tls13,
}

/// The byte-layout convention the installed engine uses when it concatenates
/// the classical and post-quantum segments of a hybrid value.
#[derive(Clone, Copy, Debug, PartialEq, Eq, Structural)]
pub enum Layout {
    /// The engine emits hybrid values in the wire order: post-quantum segment
    /// first, classical segment last. No transform is needed.
    Current,
    /// The engine emits hybrid values with the classical segment first, so
    /// every boundary-crossing value must be reordered.
    Legacy,
}

/// A finite-field Diffie-Hellman group description. KEM-backed groups never
/// have one; the type only serves their interface.
#[derive(Clone, Debug)]
pub struct FfdheGroup {
    /// The prime modulus, big-endian.
    pub p: Vec<u8>,
    /// The generator, big-endian.
    pub g: Vec<u8>,
}

/// The length in bytes of a raw X25519 public key, private key, or shared
/// secret: the classical segment length of the hybrid group.
pub const X25519_LEN: usize = 32;

/// A key exchange group based on a key encapsulation mechanism.
#[derive(Clone, Debug)]
pub struct KxGroup {
    named_group: NamedGroup,
    algorithm_name: String,
    layout: Layout,
}

impl KxGroup {
    /// The wire-level group identifier this descriptor stands for.
    pub closed spec fn spec_name(&self) -> NamedGroup {
        self.named_group
    }

    /// The engine-side algorithm identifier.
    pub closed spec fn spec_algorithm_name(&self) -> Seq<char> {
        self.algorithm_name@
    }

    /// The layout convention assumed of the engine.
    pub closed spec fn spec_layout(&self) -> Layout {
        self.layout
    }

    /// Whether this group composes a classical agreement with the KEM.
    pub open spec fn spec_is_hybrid(&self) -> bool {
        self.spec_name() == NamedGroup::X25519MlKem768
    }

    /// Create a new key exchange group with the specified named group and
    /// engine algorithm name, assuming an engine in the current layout.
    pub fn new(named_group: NamedGroup, algorithm_name: String) -> (g: KxGroup)
        ensures
            g.spec_name() == named_group,
            g.spec_algorithm_name() == algorithm_name@,
            g.spec_layout() == Layout::Current,
    {
        KxGroup { named_group, algorithm_name, layout: Layout::Current }
    }

    /// The same descriptor, retargeted at an engine with the given layout
    /// convention.
    pub fn with_layout(self, layout: Layout) -> (g: KxGroup)
        ensures
            g.spec_name() == self.spec_name(),
            g.spec_algorithm_name() == self.spec_algorithm_name(),
            g.spec_layout() == layout,
    {
        KxGroup { layout, ..self }
    }

    /// The group's wire identifier.
    pub fn name(&self) -> (r: NamedGroup)
        ensures
            r == self.spec_name(),
    {
        self.named_group
    }

    /// KEM-backed groups serve TLS 1.3 alone.
    pub fn usable_for_version(&self, version: ProtocolVersion) -> (r: bool)
        ensures
            r == (version == ProtocolVersion::Tls13),
    {
        match version {
            ProtocolVersion::Tls13 => true,
            ProtocolVersion::Tls12 => false,
        }
    }

    /// A KEM-backed group is never a finite-field Diffie-Hellman group.
    pub fn ffdhe_group(&self) -> (r: Option<FfdheGroup>)
        ensures
            r is None,
    {
        None
    }

    /// Whether this group composes a classical agreement with the KEM.
    pub fn is_hybrid(&self) -> (r: bool)
        ensures
            r == self.spec_is_hybrid(),
    {
        match self.named_group {
            NamedGroup::X25519MlKem768 => true,
            _ => false,
        }
    }

    /// The engine algorithm identifier, for the host to hand to the engine.
    pub fn algorithm_name(&self) -> (r: &String)
        ensures
            r@ == self.spec_algorithm_name(),
    {
        &self.algorithm_name
    }

    /// The layout convention assumed of the engine.
    pub fn layout(&self) -> (r: Layout)
        ensures
            r == self.spec_layout(),
    {
        self.layout
    }

    /// The length of the classical segment of hybrid values.
    pub fn classical_len(&self) -> (r: usize)
        ensures
            r == X25519_LEN,
    {
        X25519_LEN
    }
}

/// The pure ML-KEM-768 group descriptor, for an engine in the current layout.
pub fn mlkem768() -> (g: KxGroup)
    ensures
        g.spec_name() == NamedGroup::MlKem768,
        g.spec_algorithm_name() == "mlkem768"@,
        g.spec_layout() == Layout::Current,
{
    KxGroup::new(NamedGroup::MlKem768, "mlkem768".to_owned())
}

/// The X25519 + ML-KEM-768 hybrid group descriptor, for an engine in the
/// current layout.
pub fn x25519_mlkem768() -> (g: KxGroup)
    ensures
        g.spec_name() == NamedGroup::X25519MlKem768,
        g.spec_algorithm_name() == "X25519MLKEM768"@,
        g.spec_layout() == Layout::Current,
{
    KxGroup::new(NamedGroup::X25519MlKem768, "X25519MLKEM768".to_owned())
}

/// The X25519 + ML-KEM-768 hybrid group descriptor for a legacy engine, whose
/// hybrid values carry the classical segment first and therefore pass through
/// the layout shim at every boundary.
pub fn x25519_mlkem768_legacy() -> (g: KxGroup)
    ensures
        g.spec_name() == NamedGroup::X25519MlKem768,
        g.spec_algorithm_name() == "x25519_mlkem768"@,
        g.spec_layout() == Layout::Legacy,
{
    KxGroup::new(NamedGroup::X25519MlKem768, "x25519_mlkem768".to_owned()).with_layout(
        Layout::Legacy,
    )
}

} // verus!
