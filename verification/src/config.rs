//! Tenant shard configuration: tiered resolution with defaults and clamping.
//!
//! The host supplies up to three raw property values: the global host count,
//! a tenant-specific shard size, and a global default shard size.  Every
//! failure path (absent property, unparsable bytes) degrades to a fixed
//! default, and the shard size is clamped to the host count, so resolution
//! never rejects a request.

use vstd::prelude::*;
use crate::text::{parse_u32, parse_u32_spec};

verus! {

/// The resolved per-tenant sharding parameters.
///
/// `total_hosts` is the size of the backend pool; `shard_size` is how many
/// hosts the tenant's shard may use.  Resolution guarantees
/// `shard_size <= total_hosts`.
#[derive(Clone, Copy, PartialEq, Eq, Structural, Debug)]
pub struct ShardConfig {
    pub total_hosts: u32,
    pub shard_size: u32,
}

/// The byte sequences behind an optional property value.
pub open spec fn opt_bytes(p: Option<Vec<u8>>) -> Option<Seq<u8>> {
    match p {
        Some(v) => Some(v@),
        None => None,
    }
}

/// Parsing an optional property value: absent properties parse to nothing.
pub open spec fn opt_parse(p: Option<Seq<u8>>) -> Option<u32> {
    match p {
        Some(s) => parse_u32_spec(s),
        None => None,
    }
}

/// The host count the resolver settles on: the parsed property, or `8`.
pub open spec fn resolved_total_hosts(total_prop: Option<Seq<u8>>) -> u32 {
    match opt_parse(total_prop) {
        Some(n) => n,
        None => 8,
    }
}

/// The shard size before clamping: the tenant-specific property if it
/// parses, else the global default property if it parses, else `2`.
pub open spec fn resolved_shard_size(
    tenant_prop: Option<Seq<u8>>,
    default_prop: Option<Seq<u8>>,
) -> u32 {
    match opt_parse(tenant_prop) {
        Some(n) => n,
        None => match opt_parse(default_prop) {
            Some(n) => n,
            None => 2,
        },
    }
}

/// The configuration the resolver produces: resolved host count and shard
/// size, with the shard size clamped to the host count.
pub open spec fn resolved_config(
    total_prop: Option<Seq<u8>>,
    tenant_prop: Option<Seq<u8>>,
    default_prop: Option<Seq<u8>>,
) -> ShardConfig {
    let total = resolved_total_hosts(total_prop);
    let size = resolved_shard_size(tenant_prop, default_prop);
    ShardConfig {
        total_hosts: total,
        shard_size: if size > total {
            total
        } else {
            size
        },
    }
}

/// Whatever the three property values hold, the resolved configuration
/// satisfies the clamp invariant: the shard size never exceeds the host
/// count.
pub proof fn lemma_resolved_config_clamped(
    total_prop: Option<Seq<u8>>,
    tenant_prop: Option<Seq<u8>>,
    default_prop: Option<Seq<u8>>,
)
    ensures
        resolved_config(total_prop, tenant_prop, default_prop).shard_size <= resolved_config(
            total_prop,
            tenant_prop,
            default_prop,
        ).total_hosts,
{
}

/// Parses one optional property value; absence and malformation both yield
/// `None`.
fn parse_property(p: &Option<Vec<u8>>) -> (r: Option<u32>)
    ensures
        r == opt_parse(opt_bytes(*p)),
{
    match p {
        Some(v) => parse_u32(v),
        None => None,
    }
}

/// Resolves a tenant's shard configuration from the three raw property
/// values.  Never fails: missing or malformed values fall back to the
/// defaults (`8` hosts, shard size `2`), and the shard size is clamped so
/// that it never exceeds the host count.
pub fn resolve_config(
    total_prop: &Option<Vec<u8>>,
    tenant_prop: &Option<Vec<u8>>,
    default_prop: &Option<Vec<u8>>,
) -> (c: ShardConfig)
    ensures
        c == resolved_config(opt_bytes(*total_prop), opt_bytes(*tenant_prop), opt_bytes(*default_prop)),
        c.shard_size <= c.total_hosts,
{
    let total_hosts = match parse_property(total_prop) {
        Some(n) => n,
        None => 8,
    };
    let mut shard_size = match parse_property(tenant_prop) {
        Some(n) => n,
        None => match parse_property(default_prop) {
            Some(n) => n,
            None => 2,
        },
    };
    if shard_size > total_hosts {
        shard_size = total_hosts;
    }
    ShardConfig { total_hosts, shard_size }
}

/// The fixed prefix of a tenant-specific shard-size property key
/// (`shuffle_sharding.customer.`).
pub open spec fn customer_key_prefix() -> Seq<u8> {
    seq![
        ('s' as u8), ('h' as u8), ('u' as u8), ('f' as u8), ('f' as u8), ('l' as u8), ('e' as u8), ('_' as u8), ('s' as u8), ('h' as u8), ('a' as u8), ('r' as u8), ('d' as u8), ('i' as u8),
        ('n' as u8), ('g' as u8), ('.' as u8), ('c' as u8), ('u' as u8), ('s' as u8), ('t' as u8), ('o' as u8), ('m' as u8), ('e' as u8), ('r' as u8), ('.' as u8),
    ]
}

/// The fixed suffix of a tenant-specific shard-size property key
/// (`.shard_size`).
pub open spec fn customer_key_suffix() -> Seq<u8> {
    seq![('.' as u8), ('s' as u8), ('h' as u8), ('a' as u8), ('r' as u8), ('d' as u8), ('_' as u8), ('s' as u8), ('i' as u8), ('z' as u8), ('e' as u8)]
}

/// The full tenant-specific property key: prefix, tenant bytes, suffix.
pub open spec fn customer_key_bytes(tenant: Seq<u8>) -> Seq<u8> {
    customer_key_prefix() + tenant + customer_key_suffix()
}

/// Builds the property key under which a tenant's own shard size is looked
/// up.
pub fn customer_shard_size_key(tenant: &Vec<u8>) -> (key: Vec<u8>)
    ensures
        key@ == customer_key_bytes(tenant@),
{
    let mut key: Vec<u8> = Vec::new();
    key.push(('s' as u8));
    key.push(('h' as u8));
    key.push(('u' as u8));
    key.push(('f' as u8));
    key.push(('f' as u8));
    key.push(('l' as u8));
    key.push(('e' as u8));
    key.push(('_' as u8));
    key.push(('s' as u8));
    key.push(('h' as u8));
    key.push(('a' as u8));
    key.push(('r' as u8));
    key.push(('d' as u8));
    key.push(('i' as u8));
    key.push(('n' as u8));
    key.push(('g' as u8));
    key.push(('.' as u8));
    key.push(('c' as u8));
    key.push(('u' as u8));
    key.push(('s' as u8));
    key.push(('t' as u8));
    key.push(('o' as u8));
    key.push(('m' as u8));
    key.push(('e' as u8));
    key.push(('r' as u8));
    key.push(('.' as u8));
    proof {
        assert(key@ =~= customer_key_prefix());
    }
    let mut i: usize = 0;
    while i < tenant.len()
        invariant
            i <= tenant.len(),
            key@ == customer_key_prefix() + tenant@.take(i as int),
        decreases tenant.len() - i,
    {
        key.push(tenant[i]);
        proof {
            assert(key@ =~= customer_key_prefix() + tenant@.take(i + 1));
        }
        i = i + 1;
    }
    proof {
        assert(tenant@.take(tenant@.len() as int) =~= tenant@);
    }
    key.push(('.' as u8));
    key.push(('s' as u8));
    key.push(('h' as u8));
    key.push(('a' as u8));
    key.push(('r' as u8));
    key.push(('d' as u8));
    key.push(('_' as u8));
    key.push(('s' as u8));
    key.push(('i' as u8));
    key.push(('z' as u8));
    key.push(('e' as u8));
    proof {
        assert(key@ =~= customer_key_bytes(tenant@));
    }
    key
}

} // verus!
