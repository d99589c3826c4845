//! Shard computation: the per-tenant, duplicate-free, ordered set of host
//! indices.
//!
//! For each slot `i` below the configured shard size, a seed string
//! `<tenant>_salt_<i>` is hashed and reduced modulo the host count.  If the
//! resulting index is already in the shard, the hash is rehashed (`h * 31 +
//! attempts`, wrapping) up to `total_hosts` times; a slot whose attempts all
//! collide contributes nothing.  The shard therefore has at most
//! `shard_size` entries, all distinct, all below `total_hosts`, in
//! selection order.

use vstd::prelude::*;
use vstd::seq_lib::*;
use vstd::set_lib::{set_int_range, lemma_int_range, lemma_len_subset};
use crate::config::ShardConfig;
use crate::hash::{djb2, djb2_hash, hash_step, lemma_wrapping_step};
use crate::text::{dec_digits, push_decimal};

verus! {

/// The fixed separator between the tenant identity and the slot number in a
/// seed string (`_salt_`).
pub open spec fn salt_separator() -> Seq<u8> {
    seq![('_' as u8), ('s' as u8), ('a' as u8), ('l' as u8), ('t' as u8), ('_' as u8)]
}

/// The seed string hashed for slot `i`: tenant bytes, separator, decimal
/// slot number.
pub open spec fn seed_bytes(tenant: Seq<u8>, i: int) -> Seq<u8> {
    tenant + salt_separator() + dec_digits(i)
}

/// Builds the seed string for slot `i` of a tenant's shard.
pub fn build_seed(tenant: &Vec<u8>, i: u32) -> (seed: Vec<u8>)
    ensures
        seed@ == seed_bytes(tenant@, i as int),
{
    let mut seed: Vec<u8> = Vec::new();
    let mut j: usize = 0;
    while j < tenant.len()
        invariant
            j <= tenant.len(),
            seed@ == tenant@.take(j as int),
        decreases tenant.len() - j,
    {
        seed.push(tenant[j]);
        proof {
            assert(seed@ =~= tenant@.take(j + 1));
        }
        j = j + 1;
    }
    proof {
        assert(tenant@.take(tenant@.len() as int) =~= tenant@);
    }
    seed.push('_' as u8);
    seed.push('s' as u8);
    seed.push('a' as u8);
    seed.push('l' as u8);
    seed.push('t' as u8);
    seed.push('_' as u8);
    proof {
        assert(seed@ =~= tenant@ + salt_separator());
    }
    push_decimal(&mut seed, i);
    proof {
        assert(seed@ =~= seed_bytes(tenant@, i as int));
    }
    seed
}

/// The host index a hash value lands on: the hash modulo the host count.
pub open spec fn slot_index(h: u64, total: u32) -> u32 {
    ((h as int) % (total as int)) as u32
}

/// The index collision avoidance settles on, starting from hash `h` with
/// `attempts` rehashes already spent: while the current index is taken and
/// fewer than `total` attempts were made, rehash with `h * 31 + attempts`
/// (wrapping) and retry.  The result may still be a taken index once the
/// attempt budget is exhausted.
pub open spec fn avoid_collisions(h: u64, attempts: u32, taken: Seq<u32>, total: u32) -> u32
    decreases total - attempts,
{
    let idx = slot_index(h, total);
    if !taken.contains(idx) || attempts >= total {
        idx
    } else {
        avoid_collisions(hash_step(h, 31, attempts as u64), (attempts + 1) as u32, taken, total)
    }
}

/// Collision avoidance always lands inside the host pool.
proof fn lemma_avoid_in_range(h: u64, attempts: u32, taken: Seq<u32>, total: u32)
    requires
        total >= 1,
    ensures
        avoid_collisions(h, attempts, taken, total) < total,
    decreases total - attempts,
{
    let idx = slot_index(h, total);
    if taken.contains(idx) && attempts < total {
        lemma_avoid_in_range(hash_step(h, 31, attempts as u64), (attempts + 1) as u32, taken, total);
    }
}

/// The shard after slot `i` was processed, given the shard built so far:
/// unchanged if collision avoidance came back with a taken index, extended
/// by the new index otherwise.
pub open spec fn shard_slot(shard: Seq<u32>, tenant: Seq<u8>, total: u32, i: int) -> Seq<u32> {
    let idx = avoid_collisions(djb2(seed_bytes(tenant, i)), 0, shard, total);
    if shard.contains(idx) {
        shard
    } else {
        shard.push(idx)
    }
}

/// The shard after the first `slots` slots were processed, in order.
pub open spec fn shard_prefix(tenant: Seq<u8>, total: u32, slots: int) -> Seq<u32>
    decreases slots,
{
    if slots <= 0 {
        Seq::empty()
    } else {
        shard_slot(shard_prefix(tenant, total, slots - 1), tenant, total, slots - 1)
    }
}

/// The complete shard of a tenant under a configuration: all slots below
/// the configured shard size, in selection order.
pub open spec fn spec_shard(tenant: Seq<u8>, config: ShardConfig) -> Seq<u32> {
    shard_prefix(tenant, config.total_hosts, config.shard_size as int)
}

/// Every shard is duplicate-free, stays inside the host pool, and has at
/// most one entry per slot.
pub proof fn lemma_shard_prefix_wf(tenant: Seq<u8>, total: u32, slots: int)
    requires
        total >= 1,
        slots >= 0,
    ensures
        shard_prefix(tenant, total, slots).no_duplicates(),
        forall|k: int|
            0 <= k < shard_prefix(tenant, total, slots).len()
                ==> #[trigger] shard_prefix(tenant, total, slots)[k] < total,
        shard_prefix(tenant, total, slots).len() <= slots,
    decreases slots,
{
    if slots > 0 {
        lemma_shard_prefix_wf(tenant, total, slots - 1);
        let prev = shard_prefix(tenant, total, slots - 1);
        let idx = avoid_collisions(djb2(seed_bytes(tenant, slots - 1)), 0, prev, total);
        lemma_avoid_in_range(djb2(seed_bytes(tenant, slots - 1)), 0, prev, total);
        if !prev.contains(idx) {
            let cur = prev.push(idx);
            assert(cur.no_duplicates()) by {
                assert(forall|k: int| 0 <= k < prev.len() ==> #[trigger] prev[k] != idx);
            }
        }
    }
}

/// No shard can hold more entries than there are hosts: its entries are
/// distinct values drawn from `[0, total)`.
pub proof fn lemma_shard_prefix_len_le_total(tenant: Seq<u8>, total: u32, slots: int)
    requires
        total >= 1,
        slots >= 0,
    ensures
        shard_prefix(tenant, total, slots).len() <= total,
{
    lemma_shard_prefix_wf(tenant, total, slots);
    let s = shard_prefix(tenant, total, slots);
    let si = s.map_values(|x: u32| x as int);
    assert(si.no_duplicates());
    assert forall|x: int| si.to_set().contains(x) implies set_int_range(0, total as int).contains(
        x,
    ) by {
        let k = choose|k: int| 0 <= k < si.len() && si[k] == x;
        assert(s[k] < total);
    }
    si.unique_seq_to_set();
    lemma_int_range(0, total as int);
    lemma_len_subset(si.to_set(), set_int_range(0, total as int));
}

/// Whether `x` occurs in `v`.
fn vec_contains(v: &Vec<u32>, x: u32) -> (r: bool)
    ensures
        r == v@.contains(x),
{
    let mut j: usize = 0;
    while j < v.len()
        invariant
            j <= v.len(),
            forall|k: int| 0 <= k < j ==> v@[k] != x,
        decreases v.len() - j,
    {
        if v[j] == x {
            return true;
        }
        j = j + 1;
    }
    false
}

/// Computes the tenant's shard for the given configuration.
///
/// The result is exactly `spec_shard`, and with it: no host index appears
/// twice, every index is below `total_hosts`, and the length is bounded by
/// both `shard_size` and `total_hosts` (a slot whose collision-avoidance
/// budget runs out contributes nothing, so the length may fall short of
/// `shard_size`).
pub fn compute_shard(tenant: &Vec<u8>, config: &ShardConfig) -> (shard: Vec<u32>)
    requires
        config.total_hosts >= 1,
    ensures
        shard@ == spec_shard(tenant@, *config),
        shard@.no_duplicates(),
        forall|k: int| 0 <= k < shard@.len() ==> #[trigger] shard@[k] < config.total_hosts,
        shard@.len() <= config.shard_size,
        shard@.len() <= config.total_hosts,
{
    let total = config.total_hosts;
    let mut shard: Vec<u32> = Vec::new();
    let mut i: u32 = 0;
    while i < config.shard_size
        invariant
            i <= config.shard_size,
            total == config.total_hosts,
            total >= 1,
            shard@ == shard_prefix(tenant@, total, i as int),
        decreases config.shard_size - i,
    {
        let seed = build_seed(tenant, i);
        let mut h = djb2_hash(&seed);
        let ghost h0 = h;
        let mut idx: u32 = (h % (total as u64)) as u32;
        let mut attempts: u32 = 0;
        let mut colliding = vec_contains(&shard, idx);
        while colliding && attempts < total
            invariant
                total >= 1,
                attempts <= total,
                idx == slot_index(h, total),
                colliding == shard@.contains(idx),
                avoid_collisions(h, attempts, shard@, total) == avoid_collisions(
                    h0,
                    0,
                    shard@,
                    total,
                ),
            decreases total - attempts,
        {
            proof {
                lemma_wrapping_step(h, 31, attempts as u64);
            }
            h = h.wrapping_mul(31).wrapping_add(attempts as u64);
            attempts = attempts + 1;
            idx = (h % (total as u64)) as u32;
            colliding = vec_contains(&shard, idx);
        }
        proof {
            assert(avoid_collisions(h, attempts, shard@, total) == idx);
            assert(idx == avoid_collisions(djb2(seed_bytes(tenant@, i as int)), 0, shard@, total));
        }
        if !vec_contains(&shard, idx) {
            shard.push(idx);
        }
        i = i + 1;
    }
    proof {
        lemma_shard_prefix_wf(tenant@, total, config.shard_size as int);
        lemma_shard_prefix_len_le_total(tenant@, total, config.shard_size as int);
    }
    shard
}

} // verus!
