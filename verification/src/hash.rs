//! The deterministic string hash every routing decision is derived from.
//!
//! The hash walks the input bytes once, folding each byte into a 64-bit
//! accumulator with wrapping arithmetic: starting from `5381`, each step is
//! `h * 33 + b` modulo `2^64`.  Every downstream component (shard
//! computation, sticky host selection) depends on this exact recurrence, so
//! its specification pins the result bit for bit.

use vstd::prelude::*;
use vstd::arithmetic::div_mod::{lemma_add_mod_noop, lemma_small_mod};

verus! {

/// One step of the hash recurrence: `h * mult + add`, wrapped to 64 bits.
pub open spec fn hash_step(h: u64, mult: u64, add: u64) -> u64 {
    ((h * mult + add) % 0x1_0000_0000_0000_0000) as u64
}

/// The hash of a byte sequence: seed `5381`, then one `hash_step` with
/// multiplier `33` per byte, in order.
pub open spec fn djb2(s: Seq<u8>) -> u64
    decreases s.len(),
{
    if s.len() == 0 {
        5381u64
    } else {
        hash_step(djb2(s.drop_last()), 33, s.last() as u64)
    }
}

/// Wrapping `h * mult` followed by wrapping `+ add` equals the single
/// wrapped step `(h * mult + add) % 2^64`.
pub(crate) proof fn lemma_wrapping_step(h: u64, mult: u64, add: u64)
    ensures
        vstd::wrapping::u64_specs::wrapping_add(
            vstd::wrapping::u64_specs::wrapping_mul(h, mult),
            add,
        ) == hash_step(h, mult, add),
{
    let m: int = 0x1_0000_0000_0000_0000;
    let p = vstd::wrapping::u64_specs::wrapping_mul(h, mult);
    assert(p == (h * mult) % m);
    lemma_add_mod_noop(h * mult, add as int, m);
    lemma_small_mod(add as nat, m as nat);
    assert((p + add) % m == (h * mult + add) % m);
}

/// Computes `djb2` of the input bytes.
pub fn djb2_hash(s: &Vec<u8>) -> (h: u64)
    ensures
        h == djb2(s@),
{
    let mut h: u64 = 5381;
    let mut i: usize = 0;
    while i < s.len()
        invariant
            i <= s.len(),
            h == djb2(s@.take(i as int)),
        decreases s.len() - i,
    {
        let b = s[i];
        proof {
            lemma_wrapping_step(h, 33, b as u64);
            assert(s@.take(i + 1).drop_last() =~= s@.take(i as int));
        }
        h = h.wrapping_mul(33).wrapping_add(b as u64);
        i = i + 1;
    }
    proof {
        assert(s@.take(s@.len() as int) =~= s@);
    }
    h
}

} // verus!
