//! Formatting of a routing decision into the outbound attribute values.
//!
//! Pure rendering, no failure mode: the shard as a comma-joined list of
//! decimal host indices, the configuration summary as
//! `<shard_size>/<total_hosts>`, the target cluster as
//! `backend_<selected_host>`, and the target host as a decimal string.

use vstd::prelude::*;
use crate::config::ShardConfig;
use crate::text::{dec_digits, push_decimal};

verus! {

/// The comma-joined decimal rendering of a host index sequence, in order.
pub open spec fn join_decimals(s: Seq<u32>) -> Seq<u8>
    decreases s.len(),
{
    if s.len() == 0 {
        Seq::empty()
    } else if s.len() == 1 {
        dec_digits(s[0] as int)
    } else {
        join_decimals(s.drop_last()) + seq![(',' as u8)] + dec_digits(s.last() as int)
    }
}

/// The configuration summary: shard size, slash, host count.
pub open spec fn config_summary(config: ShardConfig) -> Seq<u8> {
    dec_digits(config.shard_size as int) + seq![('/' as u8)] + dec_digits(
        config.total_hosts as int,
    )
}

/// The target cluster name: `backend_` followed by the host index.
pub open spec fn cluster_name(host: u32) -> Seq<u8> {
    seq![
        ('b' as u8), ('a' as u8), ('c' as u8), ('k' as u8), ('e' as u8), ('n' as u8), ('d' as u8),
        ('_' as u8),
    ] + dec_digits(host as int)
}

/// Renders the shard membership attribute: the host indices, in selection
/// order, comma-joined.
pub fn encode_assignment(shard: &Vec<u32>) -> (r: Vec<u8>)
    ensures
        r@ == join_decimals(shard@),
{
    let mut out: Vec<u8> = Vec::new();
    let mut j: usize = 0;
    while j < shard.len()
        invariant
            j <= shard.len(),
            out@ == join_decimals(shard@.take(j as int)),
        decreases shard.len() - j,
    {
        if j > 0 {
            out.push(',' as u8);
        }
        push_decimal(&mut out, shard[j]);
        proof {
            let next = shard@.take(j + 1);
            assert(next.drop_last() =~= shard@.take(j as int));
            if j == 0 {
                assert(out@ =~= join_decimals(next));
            } else {
                assert(out@ =~= join_decimals(next.drop_last()) + seq![(',' as u8)] + dec_digits(
                    next.last() as int,
                ));
            }
        }
        j = j + 1;
    }
    proof {
        assert(shard@.take(shard@.len() as int) =~= shard@);
    }
    out
}

/// Renders the configuration summary attribute.
pub fn encode_config(config: &ShardConfig) -> (r: Vec<u8>)
    ensures
        r@ == config_summary(*config),
{
    let mut out: Vec<u8> = Vec::new();
    push_decimal(&mut out, config.shard_size);
    out.push('/' as u8);
    push_decimal(&mut out, config.total_hosts);
    proof {
        assert(out@ =~= config_summary(*config));
    }
    out
}

/// Renders the target cluster attribute.
pub fn encode_cluster(host: u32) -> (r: Vec<u8>)
    ensures
        r@ == cluster_name(host),
{
    let mut out: Vec<u8> = Vec::new();
    out.push('b' as u8);
    out.push('a' as u8);
    out.push('c' as u8);
    out.push('k' as u8);
    out.push('e' as u8);
    out.push('n' as u8);
    out.push('d' as u8);
    out.push('_' as u8);
    push_decimal(&mut out, host);
    proof {
        assert(out@ =~= cluster_name(host));
    }
    out
}

/// Renders the target host attribute: the selected host index in decimal.
pub fn encode_host(host: u32) -> (r: Vec<u8>)
    ensures
        r@ == dec_digits(host as int),
{
    let mut out: Vec<u8> = Vec::new();
    push_decimal(&mut out, host);
    proof {
        assert(out@ =~= dec_digits(host as int));
    }
    out
}

} // verus!
