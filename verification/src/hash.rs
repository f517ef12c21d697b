//! A deterministic, endian-neutral 64-bit hash over byte sequences
//! (MurmurHash2, 64-bit variant; not security-grade).
//!
//! The spec function `murmur64` defines the hash value mathematically over a
//! byte sequence; the executable `murmurHash64A` is proved to return exactly
//! that value, which makes determinism a theorem rather than an observation.

use vstd::prelude::*;

verus! {

/// The multiplication constant of the hash.
pub open spec fn mconst() -> u64 {
    0xc6a4a7935bd1e995u64
}

/// Eight consecutive bytes starting at `i`, read as one little-endian word.
#[verifier::opaque]
pub open spec fn block64(key: Seq<u8>, i: int) -> u64
    recommends
        0 <= i,
        i + 8 <= key.len(),
{
    let k0 = key[i] as u64;
    let k1 = k0 | ((key[i + 1] as u64) << 8u64);
    let k2 = k1 | ((key[i + 2] as u64) << 16u64);
    let k3 = k2 | ((key[i + 3] as u64) << 24u64);
    let k4 = k3 | ((key[i + 4] as u64) << 32u64);
    let k5 = k4 | ((key[i + 5] as u64) << 40u64);
    let k6 = k5 | ((key[i + 6] as u64) << 48u64);
    k6 | ((key[i + 7] as u64) << 56u64)
}

/// One round: mixes a full block into the running state.
#[verifier::opaque]
pub open spec fn mix64(h: u64, k: u64) -> u64 {
    let k1 = k.wrapping_mul(mconst());
    let k2 = k1 ^ (k1 >> 47u64);
    let k3 = k2.wrapping_mul(mconst());
    (h ^ k3).wrapping_mul(mconst())
}

/// Folds every full block in `[i, end)` into the state, eight bytes a step.
pub open spec fn hashBlocks(key: Seq<u8>, h: u64, i: int, end: int) -> u64
    decreases end - i,
{
    if i + 8 <= end {
        hashBlocks(key, mix64(h, block64(key, i)), i + 8, end)
    } else {
        h
    }
}

/// Xors the trailing bytes `key[end..end + idx]` into the state, highest
/// index first, each shifted to its byte position.
pub open spec fn tailXor(key: Seq<u8>, h: u64, end: int, idx: int) -> u64
    decreases idx + 1,
{
    if idx < 0 {
        h
    } else {
        tailXor(key, h ^ ((key[end + idx] as u64) << ((8 * idx) as u64)), end, idx - 1)
    }
}

/// The 64-bit hash of `key` under `seed`: seed the state with the length,
/// fold the full blocks, fold the tail, then finalize with two xor-shifts.
pub open spec fn murmur64(key: Seq<u8>, seed: u64) -> u64 {
    let len = key.len() as int;
    let tail = len % 8;
    let end = len - tail;
    let h0 = seed ^ ((key.len() as u64).wrapping_mul(mconst()));
    let hb = hashBlocks(key, h0, 0, end);
    let ht = if tail != 0 {
        (tailXor(key, hb, end, tail - 1)).wrapping_mul(mconst())
    } else {
        hb
    };
    let f1 = ht ^ (ht >> 47u64);
    let f2 = f1.wrapping_mul(mconst());
    f2 ^ (f2 >> 47u64)
}

proof fn lemma_block64_steps(
    key: Seq<u8>,
    i: int,
    k0: u64,
    k1: u64,
    k2: u64,
    k3: u64,
    k4: u64,
    k5: u64,
    k6: u64,
    k: u64,
)
    requires
        0 <= i,
        i + 8 <= key.len(),
        k0 == key[i] as u64,
        k1 == k0 | ((key[i + 1] as u64) << 8u64),
        k2 == k1 | ((key[i + 2] as u64) << 16u64),
        k3 == k2 | ((key[i + 3] as u64) << 24u64),
        k4 == k3 | ((key[i + 4] as u64) << 32u64),
        k5 == k4 | ((key[i + 5] as u64) << 40u64),
        k6 == k5 | ((key[i + 6] as u64) << 48u64),
        k == k6 | ((key[i + 7] as u64) << 56u64),
    ensures
        k == block64(key, i),
{
    reveal(block64);
}

proof fn lemma_mix64_steps(h_in: u64, k_in: u64, ka: u64, kb: u64, kc: u64, ha: u64, h: u64)
    requires
        ka == k_in.wrapping_mul(mconst()),
        kb == ka ^ (ka >> 47u64),
        kc == kb.wrapping_mul(mconst()),
        ha == h_in ^ kc,
        h == ha.wrapping_mul(mconst()),
    ensures
        h == mix64(h_in, k_in),
{
    reveal(mix64);
}

/// Hash determinism: the hash is a function of the bytes and the seed alone,
/// so equal byte sequences hash to equal values.
pub proof fn lemma_hash_deterministic(a: Seq<u8>, b: Seq<u8>, seed: u64)
    requires
        a == b,
    ensures
        murmur64(a, seed) == murmur64(b, seed),
{
}

/// Computes `murmur64(key@, seed)`.
#[verifier::rlimit(50)]
pub fn murmurHash64A(key: &[u8], seed: u64) -> (r: u64)
    ensures
        r == murmur64(key@, seed),
{
    let m: u64 = 0xc6a4a7935bd1e995;
    let len: usize = key.len();
    let tail_len: usize = len % 8;
    let end: usize = len - tail_len;
    let mut h: u64 = seed ^ (len as u64).wrapping_mul(m);

    let ghost h0: u64 = h;

    let mut i: usize = 0;
    while end - i >= 8
        invariant
            m == mconst(),
            end <= key@.len(),
            i <= end,
            hashBlocks(key@, h, i as int, end as int) == hashBlocks(key@, h0, 0, end as int),
        decreases end - i,
    {
        let mut k: u64 = key[i] as u64;
        let ghost g0: u64 = k;
        k |= (key[i + 1] as u64) << 8u64;
        let ghost g1: u64 = k;
        k |= (key[i + 2] as u64) << 16u64;
        let ghost g2: u64 = k;
        k |= (key[i + 3] as u64) << 24u64;
        let ghost g3: u64 = k;
        k |= (key[i + 4] as u64) << 32u64;
        let ghost g4: u64 = k;
        k |= (key[i + 5] as u64) << 40u64;
        let ghost g5: u64 = k;
        k |= (key[i + 6] as u64) << 48u64;
        let ghost g6: u64 = k;
        k |= (key[i + 7] as u64) << 56u64;

        proof {
            lemma_block64_steps(key@, i as int, g0, g1, g2, g3, g4, g5, g6, k);
        }
        let ghost h_in: u64 = h;
        let ghost k_in: u64 = k;

        k = k.wrapping_mul(m);
        let ghost ka: u64 = k;
        k ^= k >> 47u64;
        let ghost kb: u64 = k;
        k = k.wrapping_mul(m);
        let ghost kc: u64 = k;
        h ^= k;
        let ghost ha: u64 = h;
        h = h.wrapping_mul(m);

        proof {
            lemma_mix64_steps(h_in, k_in, ka, kb, kc, ha, h);
            assert(hashBlocks(key@, h_in, i as int, end as int) == hashBlocks(
                key@,
                h,
                i as int + 8,
                end as int,
            ));
        }
        i += 8;
    }

    if tail_len != 0 {
        let ghost h_blocks: u64 = h;
        let mut j: usize = tail_len;
        while j > 0
            invariant
                tail_len == key@.len() as int % 8,
                end == key@.len() - tail_len,
                j <= tail_len,
                tailXor(key@, h, end as int, j as int - 1) == tailXor(
                    key@,
                    h_blocks,
                    end as int,
                    tail_len as int - 1,
                ),
            decreases j,
        {
            let idx = j - 1;
            let sh: u64 = (8 * idx) as u64;
            h ^= (key[end + idx] as u64) << sh;
            j = idx;
        }
        h = h.wrapping_mul(m);
    }

    h ^= h >> 47u64;
    h = h.wrapping_mul(m);
    h ^= h >> 47u64;
    h
}

/// Hashing of a value through its byte representation, with the fixed seed.
pub trait Hash {
    /// The hash value, as a mathematical function of the hashed bytes.
    spec fn hashSpec(&self) -> usize;

    /// Computes exactly `hashSpec`.
    fn hash(&self) -> (r: usize)
        ensures
            r == self.hashSpec(),
    ;
}

impl Hash for &[u8] {
    open spec fn hashSpec(&self) -> usize {
        murmur64((*self)@, 0xcae4f57u64) as usize
    }

    fn hash(&self) -> (r: usize)
        ensures
            r == self.hashSpec(),
    {
        murmurHash64A(self, 0xcae4f57) as usize
    }
}

} // verus!
