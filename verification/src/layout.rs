//! Byte-layout transforms for hybrid key-exchange values.
//!
//! A hybrid public key, ciphertext or shared secret is the concatenation of a
//! classical segment and a post-quantum segment. The wire protocol fixes one
//! order; legacy engine versions use the opposite one. Every transform here is
//! a rotation: one segment moves past the other while both keep their bytes.
use vstd::prelude::*;

verus! {

/// The bytes of `s` rotated left by `k`: the first `k` bytes move to the end,
/// the rest shift to the front.
pub open spec fn rotate_left(s: Seq<u8>, k: int) -> Seq<u8> {
    s.subrange(k, s.len() as int) + s.subrange(0, k)
}

/// The secret-half swap: the two halves of `s` exchange places. For a buffer
/// of odd length the shorter front half is the one that moves to the end.
pub open spec fn swap_halves_spec(s: Seq<u8>) -> Seq<u8> {
    rotate_left(s, (s.len() / 2) as int)
}

/// Splits `bytes` at `prefix_len` and re-concatenates the two segments in
/// swapped order. This is the forward reorder: it takes a hybrid value whose
/// classical segment stands first and produces the post-quantum-first form.
pub fn move_prefix_to_end(bytes: &[u8], prefix_len: usize) -> (r: Vec<u8>)
    requires
        prefix_len <= bytes@.len(),
    ensures
        r@ == rotate_left(bytes@, prefix_len as int),
{
    let n = bytes.len();
    let mut out: Vec<u8> = Vec::new();
    let mut i: usize = prefix_len;
    while i < n
        invariant
            prefix_len <= i <= n == bytes@.len(),
            out@ == bytes@.subrange(prefix_len as int, i as int),
        decreases n - i,
    {
        out.push(bytes[i]);
        assert(out@ =~= bytes@.subrange(prefix_len as int, i + 1));
        i = i + 1;
    }
    let mut j: usize = 0;
    while j < prefix_len
        invariant
            j <= prefix_len <= n == bytes@.len(),
            out@ == bytes@.subrange(prefix_len as int, n as int) + bytes@.subrange(0, j as int),
        decreases prefix_len - j,
    {
        out.push(bytes[j]);
        assert(out@ =~= bytes@.subrange(prefix_len as int, n as int) + bytes@.subrange(
            0,
            j + 1,
        ));
        j = j + 1;
    }
    assert(out@ =~= rotate_left(bytes@, prefix_len as int));
    out
}

/// Splits `bytes` so that its last `suffix_len` bytes form one segment and
/// re-concatenates the two segments in swapped order. This is the reverse
/// reorder: it takes a post-quantum-first hybrid value and restores the
/// classical-first form.
pub fn move_suffix_to_front(bytes: &[u8], suffix_len: usize) -> (r: Vec<u8>)
    requires
        suffix_len <= bytes@.len(),
    ensures
        r@ == rotate_left(bytes@, bytes@.len() - suffix_len),
{
    let split: usize = bytes.len() - suffix_len;
    move_prefix_to_end(bytes, split)
}

/// Splits `bytes` at its midpoint and swaps the two halves, as the legacy
/// layout shim does to a concatenated shared secret.
pub fn swap_halves(bytes: &[u8]) -> (r: Vec<u8>)
    ensures
        r@ == swap_halves_spec(bytes@),
{
    let mid: usize = bytes.len() / 2;
    move_prefix_to_end(bytes, mid)
}

/// Law: the forward reorder at a fixed segment length and the reverse reorder
/// at the complementary length undo one another, in either order, on every
/// byte buffer that is at least as long as the segment.
pub proof fn lemma_reorder_round_trip(s: Seq<u8>, classical_len: int)
    requires
        0 <= classical_len <= s.len(),
    ensures
        rotate_left(rotate_left(s, classical_len), s.len() - classical_len) == s,
        rotate_left(rotate_left(s, s.len() - classical_len), classical_len) == s,
{
    assert(rotate_left(rotate_left(s, classical_len), s.len() - classical_len) =~= s);
    assert(rotate_left(rotate_left(s, s.len() - classical_len), classical_len) =~= s);
}

/// Law: the secret-half swap is an involution on buffers of even length:
/// applying it twice returns the original buffer.
pub proof fn lemma_swap_halves_involution(s: Seq<u8>)
    requires
        s.len() % 2 == 0,
    ensures
        swap_halves_spec(swap_halves_spec(s)) == s,
{
    lemma_reorder_round_trip(s, (s.len() / 2) as int);
}

} // verus!
