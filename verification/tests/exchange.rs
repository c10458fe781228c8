//! Full KEM exchanges driven the way a host drives the engine, with a
//! deterministic stand-in engine: its keygen, encapsulation and decapsulation
//! are plain byte functions, so both sides' secrets can be compared exactly.
use kx_pq::errors::ErrorKind;
use kx_pq::groups::mlkem768;
use kx_pq::groups::x25519_mlkem768;
use kx_pq::groups::x25519_mlkem768_legacy;
use kx_pq::groups::NamedGroup;
use kx_pq::session::MLKEM768_PUB_LEN;
use kx_pq::session::X25519MLKEM768_PUB_LEN;

/// The stand-in engine's encapsulation: ciphertext and shared secret are
/// fixed functions of the peer public key, and its decapsulation recovers the
/// same secret from the ciphertext alone.
fn toy_encapsulate(engine_peer_key: &[u8]) -> (Vec<u8>, Vec<u8>) {
    let ciphertext: Vec<u8> = engine_peer_key.iter().rev().map(|b| b.wrapping_add(1)).collect();
    (ciphertext.clone(), toy_decapsulate(&ciphertext))
}

fn toy_decapsulate(engine_ciphertext: &[u8]) -> Vec<u8> {
    engine_ciphertext.iter().take(64).map(|b| b ^ 0x5A).collect()
}

fn pattern(len: usize) -> Vec<u8> {
    (0..len).map(|i| (i % 251) as u8).collect()
}

#[test]
fn mlkem768_exchange_round_trip() {
    // Initiator A: the engine generated a keypair and exported the encoded
    // public key; no classical component exists for the pure KEM group.
    let engine_pub = pattern(MLKEM768_PUB_LEN);
    let a = mlkem768().start_finish(engine_pub.clone(), None).unwrap();
    assert_eq!(a.group(), NamedGroup::MlKem768);
    assert_eq!(a.pub_key(), engine_pub.as_slice());
    assert!(a.hybrid_component().is_none());

    // Responder B: start_and_complete against A's wire public key.
    let for_engine = mlkem768().start_and_complete_prepare(a.pub_key()).unwrap();
    assert_eq!(for_engine, engine_pub);
    let (ciphertext, secret_b) = toy_encapsulate(&for_engine);
    let completed = mlkem768()
        .start_and_complete_finish(ciphertext.clone(), secret_b.clone())
        .unwrap();
    assert_eq!(completed.group, NamedGroup::MlKem768);

    // A completes with B's wire ciphertext: the engine receives exactly the
    // ciphertext B's engine emitted, so it derives the same secret.
    let ct_for_engine = a.complete_prepare(&completed.pub_key).unwrap();
    assert_eq!(ct_for_engine, ciphertext);
    let secret_a = a.complete_finish(toy_decapsulate(&ct_for_engine));
    assert_eq!(secret_a.secret_bytes(), completed.secret.secret_bytes());
}

#[test]
fn hybrid_exchange_current_layout() {
    // The current-layout engine emits hybrid values in wire order already:
    // post-quantum segment first, 32 classical bytes last.
    let engine_pub = pattern(X25519MLKEM768_PUB_LEN);
    let classical_pub = pattern(32);
    let a = x25519_mlkem768()
        .start_finish(engine_pub.clone(), Some(classical_pub.clone()))
        .unwrap();
    assert_eq!(a.pub_key(), engine_pub.as_slice());
    let (classical_group, classical) = a.hybrid_component().unwrap();
    assert_eq!(classical_group, NamedGroup::X25519);
    assert_eq!(classical, classical_pub);

    let for_engine = x25519_mlkem768().start_and_complete_prepare(a.pub_key()).unwrap();
    assert_eq!(for_engine, engine_pub);
    let (ciphertext, secret_b) = toy_encapsulate(&for_engine);
    let completed = x25519_mlkem768()
        .start_and_complete_finish(ciphertext.clone(), secret_b.clone())
        .unwrap();
    assert_eq!(completed.pub_key, ciphertext);
    assert_eq!(completed.secret.secret_bytes(), secret_b.as_slice());

    let ct_for_engine = a.complete_prepare(&completed.pub_key).unwrap();
    assert_eq!(ct_for_engine, ciphertext);
    let secret_a = a.complete_finish(toy_decapsulate(&ct_for_engine));
    // Both callers hold the same 32+32-byte combined secret.
    assert_eq!(secret_a.secret_bytes().len(), 64);
    assert_eq!(secret_a.secret_bytes(), completed.secret.secret_bytes());
}

#[test]
fn hybrid_exchange_legacy_layout() {
    // The legacy engine emits hybrid values with the 32 classical bytes
    // first; every boundary-crossing value passes through the shim.
    let group = || x25519_mlkem768_legacy();
    let engine_pub = pattern(X25519MLKEM768_PUB_LEN);
    let classical_pub = pattern(32);
    let a = group().start_finish(engine_pub.clone(), Some(classical_pub.clone())).unwrap();

    // The wire key is the engine key with its classical prefix moved to the
    // end.
    let mut expected_wire = engine_pub[32..].to_vec();
    expected_wire.extend_from_slice(&engine_pub[..32]);
    assert_eq!(a.pub_key(), expected_wire.as_slice());

    // The responder hands its engine the key in the engine's own order.
    let for_engine = group().start_and_complete_prepare(a.pub_key()).unwrap();
    assert_eq!(for_engine, engine_pub);

    let (ciphertext, secret_b) = toy_encapsulate(&for_engine);
    let completed = group()
        .start_and_complete_finish(ciphertext.clone(), secret_b.clone())
        .unwrap();

    // The wire ciphertext is reordered the same way, and the published
    // secret has its halves swapped.
    let mut expected_ct = ciphertext[32..].to_vec();
    expected_ct.extend_from_slice(&ciphertext[..32]);
    assert_eq!(completed.pub_key, expected_ct);
    let mut expected_secret = secret_b[32..].to_vec();
    expected_secret.extend_from_slice(&secret_b[..32]);
    assert_eq!(completed.secret.secret_bytes(), expected_secret.as_slice());

    // The decapsulating side undoes the reorder and swaps its secret halves
    // identically: equal combined secrets on both sides.
    let ct_for_engine = a.complete_prepare(&completed.pub_key).unwrap();
    assert_eq!(ct_for_engine, ciphertext);
    let secret_a = a.complete_finish(toy_decapsulate(&ct_for_engine));
    assert_eq!(secret_a.secret_bytes(), completed.secret.secret_bytes());
}

#[test]
fn truncated_peer_key_is_rejected() {
    for g in [mlkem768(), x25519_mlkem768(), x25519_mlkem768_legacy()] {
        let err = g.start_and_complete_prepare(&pattern(10)).unwrap_err();
        assert_eq!(err.kind(), ErrorKind::Encapsulation);
        let err = g.start_and_complete_prepare(&[]).unwrap_err();
        assert_eq!(err.kind(), ErrorKind::Encapsulation);
    }
}

#[test]
fn oversized_peer_key_is_rejected() {
    let err = mlkem768()
        .start_and_complete_prepare(&pattern(MLKEM768_PUB_LEN + 1))
        .unwrap_err();
    assert_eq!(err.kind(), ErrorKind::Encapsulation);
    let err = x25519_mlkem768_legacy()
        .start_and_complete_prepare(&pattern(X25519MLKEM768_PUB_LEN + 1))
        .unwrap_err();
    assert_eq!(err.kind(), ErrorKind::Encapsulation);
}

#[test]
fn short_ciphertext_is_rejected_by_the_legacy_shim() {
    let a = x25519_mlkem768_legacy()
        .start_finish(pattern(X25519MLKEM768_PUB_LEN), Some(pattern(32)))
        .unwrap();
    let err = a.complete_prepare(&pattern(10)).unwrap_err();
    assert_eq!(err.kind(), ErrorKind::Decapsulation);
}

#[test]
fn hybrid_start_requires_a_classical_component() {
    let err = x25519_mlkem768()
        .start_finish(pattern(X25519MLKEM768_PUB_LEN), None)
        .unwrap_err();
    assert_eq!(err.kind(), ErrorKind::Setup);
    assert!(!err.detail().is_empty());
}

#[test]
fn legacy_start_rejects_a_short_engine_key() {
    // An exported hybrid key shorter than its classical segment cannot be
    // reordered; the shim reports a setup failure instead of misbehaving.
    let err = x25519_mlkem768_legacy()
        .start_finish(pattern(10), Some(pattern(32)))
        .unwrap_err();
    assert_eq!(err.kind(), ErrorKind::Setup);
}

#[test]
fn short_engine_ciphertext_is_rejected_by_the_legacy_shim() {
    let err = x25519_mlkem768_legacy()
        .start_and_complete_finish(pattern(10), pattern(64))
        .unwrap_err();
    assert_eq!(err.kind(), ErrorKind::Encapsulation);
}
