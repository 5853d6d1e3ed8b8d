//! Append-only Merkle tree with RFC 6962 hash construction.
//!
//! - leaf hash:     `SHA-256(0x00 || leaf_data)`
//! - internal hash: `SHA-256(0x01 || left_hash || right_hash)`
//! - empty tree:    `SHA-256("")`
//!
//! A [`SignedTreeHead`] binds the tree size, a timestamp and the root hash;
//! its signature (ML-DSA-65) is made and checked over [`SignedTreeHead::message`].

use vstd::prelude::*;

use crate::bytes::{append_bytes, be64, bytes_eq, u64_to_be};
use crate::error::{CoreError, CoreResult};
use crate::hash::{sha256, sha256_spec};
use crate::sig::ml_dsa_65;
use crate::sig::ml_dsa_65::signature_len_ok;

verus! {

// ---------------------------------------------------------------------------
// Hashes and the tree shape
// ---------------------------------------------------------------------------

/// Leaf hash: `SHA-256(0x00 || data)`.
pub open spec fn leaf_hash_spec(data: Seq<u8>) -> Seq<u8> {
    sha256_spec(seq![0u8] + data)
}

/// Internal node hash: `SHA-256(0x01 || left || right)`.
pub open spec fn node_hash_spec(left: Seq<u8>, right: Seq<u8>) -> Seq<u8> {
    sha256_spec(seq![1u8] + left + right)
}

/// `2^e`.
pub open spec fn p2(e: nat) -> nat
    decreases e,
{
    if e == 0 {
        1
    } else {
        2 * p2((e - 1) as nat)
    }
}

/// The exponent of the RFC 6962 split point of `n` leaves.
pub open spec fn log_split(n: nat) -> nat
    decreases n,
{
    if n <= 2 {
        0
    } else {
        1 + log_split(((n + 1) / 2) as nat)
    }
}

/// The RFC 6962 split point: the largest power of two strictly below `n` (`n >= 2`).
pub open spec fn split_spec(n: nat) -> nat {
    p2(log_split(n))
}

/// Powers of two are positive, grow, and multiply by adding exponents.
pub proof fn lemma_p2_facts(a: nat, b: nat)
    ensures
        p2(a) >= 1,
        a < b ==> p2(a) < p2(b),
        p2(a + b) == p2(a) * p2(b),
    decreases b,
{
    lemma_p2_pos(a);
    if b == 0 {
        assert(p2(0) == 1);
        assert(p2(a) * p2(0) == p2(a)) by (nonlinear_arith)
            requires
                p2(0) == 1,
        ;
        assert(a + b == a);
    } else {
        let b1 = (b - 1) as nat;
        lemma_p2_facts(a, b1);
        lemma_p2_pos(b1);
        assert(p2(a + b) == 2 * p2(a + b1));
        assert(p2(b) == 2 * p2(b1));
        assert(p2(a) * p2(b) == 2 * (p2(a) * p2(b1))) by (nonlinear_arith)
            requires
                p2(b) == 2 * p2(b1),
        ;
        if a < b {
            if a < b1 {
            } else {
                assert(a == b1);
            }
        }
    }
}

proof fn lemma_p2_pos(a: nat)
    ensures
        p2(a) >= 1,
    decreases a,
{
    if a > 0 {
        lemma_p2_pos((a - 1) as nat);
    }
}

/// The split point `k` of `n >= 2` leaves satisfies `k < n <= 2k`.
pub proof fn lemma_split_bounds(n: nat)
    requires
        n >= 2,
    ensures
        p2(log_split(n)) < n <= 2 * p2(log_split(n)),
        p2(log_split(n) + 1) == 2 * p2(log_split(n)),
    decreases n,
{
    if n > 2 {
        lemma_split_bounds(((n + 1) / 2) as nat);
    }
}

/// Two exponents whose powers bracket the same `n` are equal.
proof fn lemma_bracket_unique(a: nat, b: nat, n: nat)
    requires
        p2(a) < n <= 2 * p2(a),
        p2(b) < n <= 2 * p2(b),
    ensures
        a == b,
{
    if a < b {
        lemma_p2_facts(a + 1, (b - a - 1) as nat);
        lemma_p2_facts(1, (b - a - 1) as nat);
        lemma_p2_facts(a, (b - a) as nat);
        assert(p2(a + 1) == 2 * p2(a));
        assert(p2(a + 1) <= p2(b)) by {
            if a + 1 < b {
                lemma_p2_facts(a + 1, b);
            }
        }
    } else if b < a {
        assert(p2(b + 1) == 2 * p2(b));
        assert(p2(b + 1) <= p2(a)) by {
            if b + 1 < a {
                lemma_p2_facts(b + 1, a);
            }
        }
    }
}

/// The Merkle Tree Hash of a list of leaf hashes (RFC 6962 §2.1).
pub open spec fn mth_spec(leaves: Seq<Seq<u8>>) -> Seq<u8>
    decreases leaves.len(),
{
    if leaves.len() == 0 {
        sha256_spec(Seq::empty())
    } else if leaves.len() == 1 {
        leaves[0]
    } else {
        let k = split_spec(leaves.len());
        proof {
            lemma_split_bounds(leaves.len());
        }
        node_hash_spec(mth_spec(leaves.take(k as int)), mth_spec(leaves.skip(k as int)))
    }
}

/// The RFC 6962 audit path of leaf `m`, from the leaf's sibling up to the root's child.
pub open spec fn path_spec(m: nat, leaves: Seq<Seq<u8>>) -> Seq<Seq<u8>>
    decreases leaves.len(),
{
    if leaves.len() <= 1 {
        Seq::empty()
    } else {
        let k = split_spec(leaves.len());
        proof {
            lemma_split_bounds(leaves.len());
        }
        if m < k {
            path_spec(m, leaves.take(k as int)).push(mth_spec(leaves.skip(k as int)))
        } else {
            path_spec((m - k) as nat, leaves.skip(k as int)).push(mth_spec(leaves.take(k as int)))
        }
    }
}

// ---------------------------------------------------------------------------
// The RFC 9162 verification loop
// ---------------------------------------------------------------------------

/// Halve both indices while the first is even and non-zero.
pub open spec fn strip(f: nat, s: nat) -> (nat, nat)
    decreases f,
{
    if f % 2 == 0 && f != 0 {
        strip(f / 2, s / 2)
    } else {
        (f, s)
    }
}

/// One iteration of the RFC 9162 loop over proof element `p`.
pub open spec fn verify_step(f: nat, s: nat, r: Seq<u8>, p: Seq<u8>) -> (nat, nat, Seq<u8>) {
    if f % 2 == 1 || f == s {
        let fs = if f % 2 == 0 {
            strip(f, s)
        } else {
            (f, s)
        };
        (fs.0 / 2, fs.1 / 2, node_hash_spec(p, r))
    } else {
        (f / 2, s / 2, node_hash_spec(r, p))
    }
}

/// The state after running the loop over `proof`, or `None` when the proof
/// is longer than the tree is deep.
pub open spec fn verify_run(f: nat, s: nat, r: Seq<u8>, proof: Seq<Seq<u8>>) -> Option<
    (nat, nat, Seq<u8>),
>
    decreases proof.len(),
{
    if proof.len() == 0 {
        Some((f, s, r))
    } else if s == 0 {
        None
    } else {
        let st = verify_step(f, s, r, proof[0]);
        verify_run(st.0, st.1, st.2, proof.drop_first())
    }
}

/// Whether `proof` proves that `leaf` sits at `leaf_index` in a tree of
/// `tree_size` leaves with root `root` (RFC 9162 §2.1.3.2).
pub open spec fn verify_inclusion_spec(
    root: Seq<u8>,
    leaf: Seq<u8>,
    leaf_index: nat,
    tree_size: nat,
    proof: Seq<Seq<u8>>,
) -> bool {
    leaf_index < tree_size && match verify_run(
        leaf_index,
        (tree_size - 1) as nat,
        leaf_hash_spec(leaf),
        proof,
    ) {
        Some((f, s, r)) => s == 0 && r == root,
        None => false,
    }
}

/// Running over a concatenation runs over each part in turn.
proof fn lemma_run_concat(f: nat, s: nat, r: Seq<u8>, a: Seq<Seq<u8>>, b: Seq<Seq<u8>>)
    ensures
        verify_run(f, s, r, a + b) == match verify_run(f, s, r, a) {
            None => None,
            Some((f2, s2, r2)) => verify_run(f2, s2, r2, b),
        },
    decreases a.len(),
{
    if a.len() == 0 {
        assert(a + b =~= b);
    } else if s == 0 {
    } else {
        let st = verify_step(f, s, r, a[0]);
        assert((a + b)[0] == a[0]);
        assert((a + b).drop_first() =~= a.drop_first() + b);
        lemma_run_concat(st.0, st.1, st.2, a.drop_first(), b);
    }
}

/// Stripping `a * 2^t` with `a` odd leaves `a`.
proof fn lemma_strip_pow(a: nat, t: nat)
    requires
        a % 2 == 1,
    ensures
        strip(a * p2(t), a * p2(t)) == (a, a),
    decreases t,
{
    if t == 0 {
        assert(p2(0) == 1);
        assert(a * p2(0) == a) by (nonlinear_arith)
            requires
                p2(0) == 1,
        ;
    } else {
        let x = a * p2(t);
        assert(x == 2 * (a * p2((t - 1) as nat))) by (nonlinear_arith)
            requires
                x == a * p2(t),
                p2(t) == 2 * p2((t - 1) as nat),
        ;
        lemma_p2_pos((t - 1) as nat);
        assert(a * p2((t - 1) as nat) >= 1) by (nonlinear_arith)
            requires
                a >= 1,
                p2((t - 1) as nat) >= 1,
        ;
        lemma_strip_pow(a, (t - 1) as nat);
        assert(x % 2 == 0 && x != 0 && x / 2 == a * p2((t - 1) as nat));
        assert(strip(x, x) == strip(x / 2, x / 2));
    }
}

/// `x / d == q` when `q * d <= x < (q + 1) * d`.
proof fn lemma_div_bracket(x: nat, d: nat, q: nat)
    requires
        d > 0,
        q * d <= x < (q + 1) * d,
    ensures
        x / d == q,
{
    assert((q + 1) * d == q * d + d) by (nonlinear_arith);
    vstd::arithmetic::div_mod::lemma_fundamental_div_mod_converse(
        x as int,
        d as int,
        q as int,
        (x - q * d) as int,
    );
}

/// `(x / d) / 2 == x / (2d)`.
proof fn lemma_div_twice(x: nat, d: nat)
    requires
        d > 0,
    ensures
        (x / d) / 2 == x / (2 * d),
{
    vstd::arithmetic::div_mod::lemma_div_denominator(x as int, d as int, 2);
    assert(d * 2 == 2 * d);
}

/// In a perfect subtree of `2^j` leaves at offset `q * 2^j`, whose leaves all
/// lie strictly before the last leaf `sn`, the loop climbs from leaf `m` to the
/// subtree root, ending at indices `q` and `sn / 2^j`.
proof fn lemma_run_perfect(sub: Seq<Seq<u8>>, j: nat, q: nat, m: nat, sn: nat)
    requires
        sub.len() == p2(j),
        m < p2(j),
        sn >= (q + 1) * p2(j),
    ensures
        verify_run(q * p2(j) + m, sn, sub[m as int], path_spec(m, sub)) == Some(
            (q, sn / p2(j), mth_spec(sub)),
        ),
    decreases j,
{
    if j == 0 {
        assert(p2(0) == 1);
        assert(q * p2(0) == q) by (nonlinear_arith)
            requires
                p2(0) == 1,
        ;
        assert(sn / 1 == sn);
        assert(path_spec(m, sub) == Seq::<Seq<u8>>::empty());
    } else {
        let jj = (j - 1) as nat;
        let k = p2(jj);
        lemma_p2_pos(jj);
        assert(p2(j) == 2 * k);
        lemma_split_bounds(sub.len());
        lemma_bracket_unique(log_split(sub.len()), jj, sub.len());
        assert(split_spec(sub.len()) == k);
        let left = sub.take(k as int);
        let right = sub.skip(k as int);
        assert(q * p2(j) == (2 * q) * k) by (nonlinear_arith)
            requires
                p2(j) == 2 * k,
        ;
        assert((q + 1) * p2(j) == (2 * q + 2) * k) by (nonlinear_arith)
            requires
                p2(j) == 2 * k,
        ;
        assert((2 * q + 2) * k == (2 * q + 1) * k + k) by (nonlinear_arith);
        assert((2 * q + 1) * k == (2 * q) * k + k) by (nonlinear_arith);
        let sq = sn / k;
        assert(sq >= 2 * q + 2) by {
            vstd::arithmetic::div_mod::lemma_div_is_ordered(
                ((2 * q + 2) * k) as int,
                sn as int,
                k as int,
            );
            vstd::arithmetic::div_mod::lemma_div_multiples_vanish((2 * q + 2) as int, k as int);
            assert((2 * q + 2) * k == k * (2 * q + 2)) by (nonlinear_arith);
        }
        lemma_div_twice(sn, k);
        if m < k {
            assert(left[m as int] == sub[m as int]);
            lemma_run_perfect(left, jj, 2 * q, m, sn);
            let tail = seq![mth_spec(right)];
            assert(path_spec(m, sub) == path_spec(m, left) + tail);
            lemma_run_concat(q * p2(j) + m, sn, sub[m as int], path_spec(m, left), tail);
            assert(tail.drop_first() =~= Seq::<Seq<u8>>::empty());
            assert((2 * q) % 2 == 0 && (2 * q) / 2 == q);
            let fin = node_hash_spec(mth_spec(left), mth_spec(right));
            assert(verify_step(2 * q, sq, mth_spec(left), tail[0]) == (q, sq / 2, fin));
            assert(verify_run(q, sq / 2, fin, tail.drop_first()) == Some((q, sq / 2, fin)));
            assert(verify_run(2 * q, sq, mth_spec(left), tail) == Some((q, sq / 2, fin)));
            assert(mth_spec(sub) == fin);
        } else {
            let mm = (m - k) as nat;
            assert(right[mm as int] == sub[m as int]);
            assert(q * p2(j) + m == (2 * q + 1) * k + mm);
            lemma_run_perfect(right, jj, 2 * q + 1, mm, sn);
            let tail = seq![mth_spec(left)];
            assert(path_spec(m, sub) == path_spec(mm, right) + tail);
            lemma_run_concat(q * p2(j) + m, sn, sub[m as int], path_spec(mm, right), tail);
            assert(tail.drop_first() =~= Seq::<Seq<u8>>::empty());
            assert((2 * q + 1) % 2 == 1 && (2 * q + 1) / 2 == q);
            let fin = node_hash_spec(mth_spec(left), mth_spec(right));
            assert(verify_step(2 * q + 1, sq, mth_spec(right), tail[0]) == (q, sq / 2, fin));
            assert(verify_run(q, sq / 2, fin, tail.drop_first()) == Some((q, sq / 2, fin)));
            assert(verify_run(2 * q + 1, sq, mth_spec(right), tail) == Some((q, sq / 2, fin)));
            assert(mth_spec(sub) == fin);
        }
    }
}

/// The shift after which the right spine of `s` leaves has collapsed to one node.
pub open spec fn spine_shift(s: nat) -> nat {
    if s <= 1 {
        0
    } else {
        log_split(s) + 1
    }
}

/// `s <= 2^j` implies the spine shift of `s` is at most `j`.
proof fn lemma_spine_shift_le(s: nat, j: nat)
    requires
        1 <= s <= p2(j),
    ensures
        spine_shift(s) <= j,
{
    if s >= 2 {
        lemma_split_bounds(s);
        let e = log_split(s);
        if e >= j {
            if e > j {
                lemma_p2_facts(j, e);
            }
        }
    }
}

/// In a subtree of `s` leaves at offset `q * 2^c` (`c` the spine shift of `s`)
/// whose last leaf is the tree's last leaf, the loop climbs from leaf `m` to
/// the subtree root, ending with both indices at `q`.
proof fn lemma_run_spine(sub: Seq<Seq<u8>>, q: nat, m: nat)
    requires
        sub.len() >= 1,
        m < sub.len(),
    ensures
        verify_run(
            q * p2(spine_shift(sub.len())) + m,
            (q * p2(spine_shift(sub.len())) + sub.len() - 1) as nat,
            sub[m as int],
            path_spec(m, sub),
        ) == Some((q, q, mth_spec(sub))),
    decreases sub.len(),
{
    let s = sub.len();
    if s == 1 {
        assert(p2(0) == 1);
        assert(q * p2(0) == q) by (nonlinear_arith)
            requires
                p2(0) == 1,
        ;
        assert(path_spec(m, sub) == Seq::<Seq<u8>>::empty());
    } else {
        lemma_split_bounds(s);
        let j = log_split(s);
        let k = p2(j);
        let c = j + 1;
        assert(spine_shift(s) == c);
        assert(p2(c) == 2 * k);
        lemma_p2_pos(j);
        let o = q * p2(c);
        assert(o == (2 * q) * k) by (nonlinear_arith)
            requires
                o == q * p2(c),
                p2(c) == 2 * k,
        ;
        let sn = (o + s - 1) as nat;
        let left = sub.take(k as int);
        let right = sub.skip(k as int);
        assert((2 * q + 1) * k == (2 * q) * k + k) by (nonlinear_arith);
        if m < k {
            assert(left[m as int] == sub[m as int]);
            assert(sn >= (2 * q + 1) * k);
            lemma_run_perfect(left, j, 2 * q, m, sn);
            assert((2 * q + 2) * k == (2 * q + 1) * k + k) by (nonlinear_arith);
            lemma_div_bracket(sn, k, 2 * q + 1);
            let tail = seq![mth_spec(right)];
            assert(path_spec(m, sub) == path_spec(m, left) + tail);
            lemma_run_concat(o + m, sn, sub[m as int], path_spec(m, left), tail);
            assert(tail.drop_first() =~= Seq::<Seq<u8>>::empty());
            assert((2 * q) % 2 == 0 && (2 * q) / 2 == q && (2 * q + 1) / 2 == q);
            let fin = node_hash_spec(mth_spec(left), mth_spec(right));
            assert(verify_step(2 * q, 2 * q + 1, mth_spec(left), tail[0]) == (q, q, fin));
            assert(verify_run(q, q, fin, tail.drop_first()) == Some((q, q, fin)));
            assert(verify_run(2 * q, 2 * q + 1, mth_spec(left), tail) == Some((q, q, fin)));
            assert(mth_spec(sub) == fin);
        } else {
            let mm = (m - k) as nat;
            let sr = right.len();
            assert(sr == s - k);
            assert(right[mm as int] == sub[m as int]);
            let c2 = spine_shift(sr);
            lemma_spine_shift_le(sr, j);
            let t = (j - c2) as nat;
            lemma_p2_facts(c2, t);
            assert(c2 + t == j);
            let q2 = (2 * q + 1) * p2(t);
            assert(q2 * p2(c2) == (2 * q + 1) * k) by (nonlinear_arith)
                requires
                    q2 == (2 * q + 1) * p2(t),
                    k == p2(c2) * p2(t),
            ;
            assert(o + m == q2 * p2(c2) + mm);
            assert(sn == q2 * p2(c2) + sr - 1);
            lemma_run_spine(right, q2, mm);
            lemma_p2_pos(t);
            assert(q2 >= 1) by (nonlinear_arith)
                requires
                    q2 == (2 * q + 1) * p2(t),
                    p2(t) >= 1,
            ;
            let tail = seq![mth_spec(left)];
            assert(path_spec(m, sub) == path_spec(mm, right) + tail);
            lemma_run_concat(o + m, sn, sub[m as int], path_spec(mm, right), tail);
            assert(tail.drop_first() =~= Seq::<Seq<u8>>::empty());
            lemma_strip_pow(2 * q + 1, t);
            if t == 0 {
                assert(p2(0) == 1);
                assert(q2 == 2 * q + 1) by (nonlinear_arith)
                    requires
                        q2 == (2 * q + 1) * p2(t),
                        t == 0,
                        p2(0) == 1,
                ;
            } else {
                let h = (2 * q + 1) * p2((t - 1) as nat);
                assert(q2 == 2 * h) by (nonlinear_arith)
                    requires
                        q2 == (2 * q + 1) * p2(t),
                        p2(t) == 2 * p2((t - 1) as nat),
                        h == (2 * q + 1) * p2((t - 1) as nat),
                ;
            }
            assert((2 * q + 1) / 2 == q);
            let fin = node_hash_spec(mth_spec(left), mth_spec(right));
            assert(verify_step(q2, q2, mth_spec(right), tail[0]) == (q, q, fin));
            assert(verify_run(q, q, fin, tail.drop_first()) == Some((q, q, fin)));
            assert(verify_run(q2, q2, mth_spec(right), tail) == Some((q, q, fin)));
            assert(mth_spec(sub) == fin);
        }
    }
}

/// Law: the audit path of every leaf verifies against the tree's root.
pub proof fn lemma_inclusion_proof_verifies(leaves: Seq<Seq<u8>>, m: nat, data: Seq<u8>)
    requires
        m < leaves.len(),
        leaves[m as int] == leaf_hash_spec(data),
    ensures
        verify_inclusion_spec(mth_spec(leaves), data, m, leaves.len(), path_spec(m, leaves)),
{
    lemma_run_spine(leaves, 0, m);
    assert(0 * p2(spine_shift(leaves.len())) == 0);
}

// ---------------------------------------------------------------------------
// Executable tree
// ---------------------------------------------------------------------------

/// The hashes held as 32-byte arrays, viewed as byte sequences.
pub open spec fn hashes(v: Seq<[u8; 32]>) -> Seq<Seq<u8>> {
    v.map_values(|a: [u8; 32]| a@)
}

/// Hash of a leaf's data: `SHA-256(0x00 || data)`.
fn hash_leaf(data: &[u8]) -> (r: [u8; 32])
    ensures
        r@ == leaf_hash_spec(data@),
        r@ == sha256_spec(seq![0x00u8] + data@),
{
    let mut buf: Vec<u8> = Vec::new();
    buf.push(0x00);
    append_bytes(&mut buf, data);
    assert(buf@ =~= seq![0u8] + data@);
    sha256(buf.as_slice())
}

/// Hash of two child subtrees: `SHA-256(0x01 || left || right)`.
fn hash_children(left: &[u8; 32], right: &[u8; 32]) -> (r: [u8; 32])
    ensures
        r@ == node_hash_spec(left@, right@),
        r@ == sha256_spec(seq![0x01u8] + left@ + right@),
{
    let mut buf: Vec<u8> = Vec::new();
    buf.push(0x01);
    append_bytes(&mut buf, left);
    append_bytes(&mut buf, right);
    assert(buf@ =~= seq![1u8] + left@ + right@);
    sha256(buf.as_slice())
}

/// Largest power of two strictly less than `n` (`n >= 2`): the RFC 6962 split point.
fn split_point(n: usize) -> (r: usize)
    requires
        n >= 2,
    ensures
        r == split_spec(n as nat),
        1 <= r < n,
{
    let mut k: usize = 1;
    let ghost mut e: nat = 0;
    while k < n - k
        invariant
            n >= 2,
            k == p2(e),
            1 <= k < n,
        decreases n - k,
    {
        k = k * 2;
        proof {
            e = e + 1;
        }
    }
    proof {
        lemma_split_bounds(n as nat);
        lemma_bracket_unique(e, log_split(n as nat), n as nat);
    }
    k
}

/// Merkle Tree Hash of `leaves[lo..hi]`.
fn mth(leaves: &Vec<[u8; 32]>, lo: usize, hi: usize) -> (r: [u8; 32])
    requires
        lo <= hi <= leaves@.len(),
    ensures
        r@ == mth_spec(hashes(leaves@).subrange(lo as int, hi as int)),
    decreases hi - lo,
{
    let ghost s = hashes(leaves@).subrange(lo as int, hi as int);
    let n = hi - lo;
    if n == 0 {
        let empty: [u8; 0] = [];
        assert(empty@ =~= Seq::<u8>::empty());
        sha256(&empty)
    } else if n == 1 {
        assert(s[0] == leaves@[lo as int]@);
        leaves[lo]
    } else {
        let k = split_point(n);
        assert(s.len() == n);
        let l = mth(leaves, lo, lo + k);
        let r = mth(leaves, lo + k, hi);
        assert(s.take(k as int) =~= hashes(leaves@).subrange(lo as int, lo + k));
        assert(s.skip(k as int) =~= hashes(leaves@).subrange(lo + k, hi as int));
        hash_children(&l, &r)
    }
}

/// The RFC 6962 audit path for leaf `m` within `leaves[lo..hi]` (`m < hi - lo`).
fn path(m: usize, leaves: &Vec<[u8; 32]>, lo: usize, hi: usize) -> (r: Vec<[u8; 32]>)
    requires
        lo <= hi <= leaves@.len(),
        m < hi - lo,
    ensures
        hashes(r@) == path_spec(m as nat, hashes(leaves@).subrange(lo as int, hi as int)),
    decreases hi - lo,
{
    let ghost s = hashes(leaves@).subrange(lo as int, hi as int);
    let n = hi - lo;
    if n == 1 {
        let r: Vec<[u8; 32]> = Vec::new();
        assert(hashes(r@) =~= Seq::<Seq<u8>>::empty());
        return r;
    }
    let k = split_point(n);
    assert(s.take(k as int) =~= hashes(leaves@).subrange(lo as int, lo + k));
    assert(s.skip(k as int) =~= hashes(leaves@).subrange(lo + k, hi as int));
    if m < k {
        let mut p = path(m, leaves, lo, lo + k);
        let sib = mth(leaves, lo + k, hi);
        let ghost before = p@;
        p.push(sib);
        assert(hashes(p@) =~= hashes(before).push(sib@));
        p
    } else {
        let mut p = path(m - k, leaves, lo + k, hi);
        let sib = mth(leaves, lo, lo + k);
        let ghost before = p@;
        p.push(sib);
        assert(hashes(p@) =~= hashes(before).push(sib@));
        p
    }
}

/// An append-only Merkle tree over arbitrary byte leaves (RFC 6962).
#[derive(Debug, Clone)]
pub struct MerkleTree {
    leaves: Vec<[u8; 32]>,
}

impl View for MerkleTree {
    type V = Seq<Seq<u8>>;

    /// The leaf hashes, in order.
    closed spec fn view(&self) -> Seq<Seq<u8>> {
        hashes(self.leaves@)
    }
}

impl Default for MerkleTree {
    fn default() -> (r: Self)
        ensures
            r@ == Seq::<Seq<u8>>::empty(),
    {
        MerkleTree::new()
    }
}

impl MerkleTree {
    /// Create an empty tree. Its root is `SHA-256("")`.
    pub fn new() -> (r: Self)
        ensures
            r@ == Seq::<Seq<u8>>::empty(),
    {
        let r = MerkleTree { leaves: Vec::new() };
        assert(r@ =~= Seq::<Seq<u8>>::empty());
        r
    }

    /// Append a leaf, hashing it as `SHA-256(0x00 || leaf)`.
    pub fn append(&mut self, leaf: &[u8])
        ensures
            final(self)@ == old(self)@.push(leaf_hash_spec(leaf@)),
    {
        let h = hash_leaf(leaf);
        self.leaves.push(h);
        assert(self@ =~= old(self)@.push(leaf_hash_spec(leaf@)));
    }

    /// The current Merkle Tree Hash (root).
    pub fn root(&self) -> (r: [u8; 32])
        ensures
            r@ == mth_spec(self@),
    {
        let r = mth(&self.leaves, 0, self.leaves.len());
        assert(hashes(self.leaves@).subrange(0, self.leaves@.len() as int) =~= self@);
        r
    }

    /// The number of leaves in the tree.
    pub fn size(&self) -> (r: usize)
        ensures
            r == self@.len(),
    {
        self.leaves.len()
    }

    /// The RFC 6962 inclusion (audit) proof for the leaf at `leaf_index`.
    ///
    /// Errors with [`CoreError::Merkle`] if `leaf_index` is not within the tree.
    pub fn inclusion_proof(&self, leaf_index: usize) -> (r: CoreResult<Vec<[u8; 32]>>)
        ensures
            leaf_index < self@.len() ==> (r matches Ok(p) && hashes(p@) == path_spec(
                leaf_index as nat,
                self@,
            )),
            leaf_index >= self@.len() ==> r == Err::<Vec<[u8; 32]>, CoreError>(
                CoreError::Merkle("leaf index out of range"),
            ),
    {
        if leaf_index >= self.leaves.len() {
            return Err(CoreError::Merkle("leaf index out of range"));
        }
        let p = path(leaf_index, &self.leaves, 0, self.leaves.len());
        assert(hashes(self.leaves@).subrange(0, self.leaves@.len() as int) =~= self@);
        Ok(p)
    }

    /// Verify an inclusion proof against a `root`, reconstructing it from the
    /// leaf (RFC 9162 §2.1.3.2). Returns `false` for any inconsistency.
    pub fn verify_inclusion(
        root: &[u8; 32],
        leaf: &[u8],
        leaf_index: usize,
        tree_size: usize,
        proof: &[[u8; 32]],
    ) -> (r: bool)
        ensures
            r == verify_inclusion_spec(
                root@,
                leaf@,
                leaf_index as nat,
                tree_size as nat,
                hashes(proof@),
            ),
    {
        if leaf_index >= tree_size {
            return false;
        }
        let ghost all = hashes(proof@);
        let ghost start = ((tree_size - 1) as nat, leaf_hash_spec(leaf@));
        let mut fnode: usize = leaf_index;
        let mut snode: usize = tree_size - 1;
        let mut r = hash_leaf(leaf);
        let mut i: usize = 0;
        assert(all.skip(0) =~= all);
        while i < proof.len()
            invariant
                i <= proof@.len(),
                all == hashes(proof@),
                leaf_index < tree_size,
                verify_run(leaf_index as nat, (tree_size - 1) as nat, leaf_hash_spec(leaf@), all)
                    == verify_run(fnode as nat, snode as nat, r@, all.skip(i as int)),
            decreases proof@.len() - i,
        {
            assert(all.skip(i as int)[0] == proof@[i as int]@);
            assert(all.skip(i as int).drop_first() =~= all.skip(i + 1));
            if snode == 0 {
                return false;
            }
            let p = &proof[i];
            let ghost f0 = fnode as nat;
            let ghost s0 = snode as nat;
            if fnode % 2 == 1 || fnode == snode {
                r = hash_children(p, &r);
                if fnode % 2 == 0 {
                    while fnode % 2 == 0 && fnode != 0
                        invariant
                            strip(f0, s0) == strip(fnode as nat, snode as nat),
                        decreases fnode,
                    {
                        fnode = fnode / 2;
                        snode = snode / 2;
                    }
                }
            } else {
                r = hash_children(&r, p);
            }
            fnode = fnode / 2;
            snode = snode / 2;
            i = i + 1;
        }
        assert(all.skip(i as int) =~= Seq::<Seq<u8>>::empty());
        snode == 0 && bytes_eq(&r, root)
    }
}

/// A signed commitment to the tree's state at a point in time (RFC 6962 STH).
///
/// The signature covers `tree_size ‖ timestamp ‖ root_hash`, integers big-endian.
#[derive(Debug, Clone)]
pub struct SignedTreeHead {
    /// Number of leaves the head commits to.
    pub tree_size: u64,
    /// Issuance time, Unix milliseconds.
    pub timestamp: u64,
    /// The Merkle root at `tree_size`.
    pub root_hash: [u8; 32],
    /// ML-DSA-65 signature over the serialized head.
    pub signature: Vec<u8>,
}

/// The 48 signed bytes: `tree_size_be ‖ timestamp_be ‖ root_hash`.
pub open spec fn sth_message_spec(tree_size: u64, timestamp: u64, root_hash: Seq<u8>) -> Seq<u8> {
    be64(tree_size) + be64(timestamp) + root_hash
}

impl SignedTreeHead {
    /// The canonical signed message: `tree_size_be ‖ timestamp_be ‖ root_hash`.
    pub fn message(tree_size: u64, timestamp: u64, root_hash: &[u8; 32]) -> (r: [u8; 48])
        ensures
            r@ == sth_message_spec(tree_size, timestamp, root_hash@),
            r@ == be64(tree_size) + be64(timestamp) + root_hash@,
    {
        let a = u64_to_be(tree_size);
        let b = u64_to_be(timestamp);
        let h = root_hash;
        let m: [u8; 48] = [
            a[0], a[1], a[2], a[3], a[4], a[5], a[6], a[7],
            b[0], b[1], b[2], b[3], b[4], b[5], b[6], b[7],
            h[0], h[1], h[2], h[3], h[4], h[5], h[6], h[7],
            h[8], h[9], h[10], h[11], h[12], h[13], h[14], h[15],
            h[16], h[17], h[18], h[19], h[20], h[21], h[22], h[23],
            h[24], h[25], h[26], h[27], h[28], h[29], h[30], h[31],
        ];
        assert(m@ =~= sth_message_spec(tree_size, timestamp, root_hash@));
        m
    }

    /// The message this head's signature must cover.
    pub fn signed_message(&self) -> (r: [u8; 48])
        ensures
            r@ == sth_message_spec(self.tree_size, self.timestamp, self.root_hash@),
    {
        Self::message(self.tree_size, self.timestamp, &self.root_hash)
    }

    /// The message to sign for `tree`'s current root at `timestamp`, with the
    /// size and root it commits to.
    pub fn signing_input(tree: &MerkleTree, timestamp: u64) -> (r: (u64, [u8; 32], [u8; 48]))
        ensures
            r.0 == tree@.len(),
            r.1@ == mth_spec(tree@),
            r.2@ == sth_message_spec(r.0, timestamp, r.1@),
    {
        let tree_size = tree.size() as u64;
        let root_hash = tree.root();
        let msg = Self::message(tree_size, timestamp, &root_hash);
        (tree_size, root_hash, msg)
    }

    /// The head for `tree` at `timestamp` carrying `signature` (made over
    /// [`SignedTreeHead::signing_input`]).
    pub fn from_signature(tree: &MerkleTree, timestamp: u64, signature: Vec<u8>) -> (r: Self)
        ensures
            r.tree_size == tree@.len(),
            r.timestamp == timestamp,
            r.root_hash@ == mth_spec(tree@),
            r.signature@ == signature@,
    {
        let (tree_size, root_hash, _msg) = Self::signing_input(tree, timestamp);
        SignedTreeHead { tree_size, timestamp, root_hash, signature }
    }

    /// What verifying this head checks: the signed message and the parsed
    /// ML-DSA-65 signature, or `None` when the signature is malformed (a head
    /// with a malformed signature does not verify).
    pub fn verification_input(&self) -> (r: Option<([u8; 48], ml_dsa_65::Signature)>)
        ensures
            match r {
                None => !signature_len_ok(self.signature@.len()),
                Some((m, sig)) => signature_len_ok(self.signature@.len()) && m@ == sth_message_spec(
                    self.tree_size,
                    self.timestamp,
                    self.root_hash@,
                ) && sig@ == self.signature@,
            },
    {
        let sig = match ml_dsa_65::Signature::from_bytes(self.signature.as_slice()) {
            Ok(s) => s,
            Err(_) => { return None },
        };
        Some((self.signed_message(), sig))
    }
}

} // verus!
