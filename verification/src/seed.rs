//! A deterministic per-node seed, derived from the node's name.
//!
//! Nodes that generate example traffic draw their send delays from a
//! pseudo-random generator.  Seeding it from the node name makes a run
//! reproducible: the same name gives the same seed on every node and in
//! every process.

use vstd::prelude::*;
use vstd::string::StringSliceAdditionalSpecFns;

verus! {

/// 256 to the `k`-th power: the number of values of `k` bytes.
pub open spec fn bound256(k: int) -> int
    decreases k,
{
    if k <= 0 {
        1
    } else {
        256 * bound256(k - 1)
    }
}

/// The big-endian value of the first `k` bytes of `bytes`.
pub open spec fn seed_prefix(bytes: Seq<u8>, k: int) -> int
    decreases k,
{
    if k <= 0 {
        0
    } else {
        seed_prefix(bytes, k - 1) * 256 + bytes[k - 1]
    }
}

/// The seed a byte sequence denotes: the big-endian value of its first
/// eight bytes, or of all of them if there are fewer.
pub open spec fn seed_of(bytes: Seq<u8>) -> int {
    if bytes.len() < 8 {
        seed_prefix(bytes, bytes.len() as int)
    } else {
        seed_prefix(bytes, 8)
    }
}

/// The value of `k` bytes is below `bound256(k)`.
proof fn lemma_seed_prefix_bound(bytes: Seq<u8>, k: int)
    requires
        0 <= k <= bytes.len(),
    ensures
        0 <= seed_prefix(bytes, k) < bound256(k),
        bound256(k) >= 1,
    decreases k,
{
    if k > 0 {
        lemma_seed_prefix_bound(bytes, k - 1);
        let sp = seed_prefix(bytes, k - 1);
        let b = bytes[k - 1] as int;
        let bprev = bound256(k - 1);
        assert(sp * 256 + b < 256 * bprev) by (nonlinear_arith)
            requires
                0 <= sp < bprev,
                0 <= b < 256,
        ;
    }
}

/// `bound256` grows with its argument.
proof fn lemma_bound256_le(j: int, k: int)
    requires
        0 <= j <= k,
    ensures
        bound256(j) <= bound256(k),
    decreases k,
{
    if j < k {
        lemma_bound256_le(j, k - 1);
        lemma_bound256_pos(k - 1);
        let bprev = bound256(k - 1);
        assert(bprev <= 256 * bprev) by (nonlinear_arith)
            requires
                bprev >= 1,
        ;
    }
}

/// `bound256` is positive.
proof fn lemma_bound256_pos(k: int)
    ensures
        bound256(k) >= 1,
    decreases k,
{
    if k > 0 {
        lemma_bound256_pos(k - 1);
        let bprev = bound256(k - 1);
        assert(256 * bprev >= 1) by (nonlinear_arith)
            requires
                bprev >= 1,
        ;
    }
}

/// Derive the seed of the node named by `s`: the big-endian value of the
/// first eight bytes of the name, or of all of them if the name is
/// shorter.
pub fn get_random_seed(s: &str) -> (v: u64)
    ensures
        v == seed_of(s.spec_bytes()),
{
    let bytes = s.as_bytes();
    let n: usize = if bytes.len() < 8 {
        bytes.len()
    } else {
        8
    };
    let mut v: u64 = 0;
    let mut i: usize = 0;
    proof {
        assert(bound256(0) == 1);
        assert(bound256(1) == 256);
        assert(bound256(2) == 0x10000);
        assert(bound256(3) == 0x1000000);
        assert(bound256(4) == 0x100000000);
        assert(bound256(5) == 0x10000000000);
        assert(bound256(6) == 0x1000000000000);
        assert(bound256(7) == 0x100000000000000);
        assert(bound256(8) == 0x10000000000000000);
    }
    while i < n
        invariant
            i <= n,
            n <= 8,
            n <= bytes@.len(),
            bytes@ == s.spec_bytes(),
            n == if bytes@.len() < 8 {
                bytes@.len() as int
            } else {
                8
            },
            v == seed_prefix(bytes@, i as int),
            bound256(8) == 0x10000000000000000,
        decreases n - i,
    {
        proof {
            lemma_seed_prefix_bound(bytes@, i as int);
            lemma_seed_prefix_bound(bytes@, i + 1);
            lemma_bound256_le(i + 1, 8);
        }
        v = v * 256 + (bytes[i] as u64);
        i += 1;
    }
    v
}

} // verus!
