use kx_pq::groups::mlkem768;
use kx_pq::groups::x25519_mlkem768;
use kx_pq::groups::x25519_mlkem768_legacy;
use kx_pq::groups::KxGroup;
use kx_pq::groups::Layout;
use kx_pq::groups::NamedGroup;
use kx_pq::groups::ProtocolVersion;

#[test]
fn descriptor_names_and_algorithms() {
    let g = mlkem768();
    assert_eq!(g.name(), NamedGroup::MlKem768);
    assert_eq!(g.algorithm_name().as_str(), "mlkem768");
    assert_eq!(g.layout(), Layout::Current);
    assert!(!g.is_hybrid());

    let h = x25519_mlkem768();
    assert_eq!(h.name(), NamedGroup::X25519MlKem768);
    assert_eq!(h.algorithm_name().as_str(), "X25519MLKEM768");
    assert_eq!(h.layout(), Layout::Current);
    assert!(h.is_hybrid());

    let l = x25519_mlkem768_legacy();
    assert_eq!(l.name(), NamedGroup::X25519MlKem768);
    assert_eq!(l.algorithm_name().as_str(), "x25519_mlkem768");
    assert_eq!(l.layout(), Layout::Legacy);
    assert!(l.is_hybrid());
}

#[test]
fn custom_descriptor_keeps_its_fields() {
    let g = KxGroup::new(NamedGroup::MlKem768, "kyber768".to_owned());
    assert_eq!(g.name(), NamedGroup::MlKem768);
    assert_eq!(g.algorithm_name().as_str(), "kyber768");
    assert_eq!(g.layout(), Layout::Current);
    let g = g.with_layout(Layout::Legacy);
    assert_eq!(g.layout(), Layout::Legacy);
    assert_eq!(g.algorithm_name().as_str(), "kyber768");
}

#[test]
fn usable_for_tls13_only() {
    let g = mlkem768();
    assert!(g.usable_for_version(ProtocolVersion::Tls13));
    assert!(!g.usable_for_version(ProtocolVersion::Tls12));
    let h = x25519_mlkem768_legacy();
    assert!(h.usable_for_version(ProtocolVersion::Tls13));
    assert!(!h.usable_for_version(ProtocolVersion::Tls12));
}

#[test]
fn never_an_ffdhe_group() {
    assert!(mlkem768().ffdhe_group().is_none());
    assert!(x25519_mlkem768().ffdhe_group().is_none());
    assert!(x25519_mlkem768_legacy().ffdhe_group().is_none());
}

#[test]
fn classical_segment_length_is_fixed() {
    assert_eq!(x25519_mlkem768().classical_len(), 32);
    assert_eq!(x25519_mlkem768_legacy().classical_len(), 32);
}

#[test]
fn wire_public_key_lengths() {
    assert_eq!(kx_pq::session::MLKEM768_PUB_LEN, 1184);
    assert_eq!(kx_pq::session::X25519MLKEM768_PUB_LEN, 1216);
    assert_eq!(kx_pq::session::peer_pub_len(NamedGroup::MlKem768), 1184);
    assert_eq!(kx_pq::session::peer_pub_len(NamedGroup::X25519MlKem768), 1216);
    assert_eq!(kx_pq::session::peer_pub_len(NamedGroup::X25519), 32);
}
