//! Unit tests for the hash, parsing, configuration, and encoding
//! primitives.

use shuffle_shard::config::{customer_shard_size_key, resolve_config};
use shuffle_shard::encode::{encode_assignment, encode_cluster, encode_config, encode_host};
use shuffle_shard::hash::djb2_hash;
use shuffle_shard::text::{parse_u32, push_decimal};

#[test]
fn hash_of_empty_input_is_seed() {
    assert_eq!(djb2_hash(&Vec::new()), 5381);
}

#[test]
fn hash_of_single_byte_is_one_step() {
    assert_eq!(djb2_hash(&b"a".to_vec()), 5381 * 33 + 97);
    assert_eq!(djb2_hash(&b"a".to_vec()), 177670);
}

#[test]
fn hash_is_deterministic() {
    let input = b"some longer input with spaces".to_vec();
    assert_eq!(djb2_hash(&input), djb2_hash(&input));
}

#[test]
fn push_decimal_renders_digits() {
    let mut out = Vec::new();
    push_decimal(&mut out, 0);
    assert_eq!(out, b"0".to_vec());
    let mut out = Vec::new();
    push_decimal(&mut out, 4294967295);
    assert_eq!(out, b"4294967295".to_vec());
    let mut out = b"x".to_vec();
    push_decimal(&mut out, 105);
    assert_eq!(out, b"x105".to_vec());
}

#[test]
fn parse_accepts_plain_decimals() {
    assert_eq!(parse_u32(&b"0".to_vec()), Some(0));
    assert_eq!(parse_u32(&b"8".to_vec()), Some(8));
    assert_eq!(parse_u32(&b"007".to_vec()), Some(7));
    assert_eq!(parse_u32(&b"+12".to_vec()), Some(12));
    assert_eq!(parse_u32(&b"4294967295".to_vec()), Some(4294967295));
}

#[test]
fn parse_rejects_malformed_values() {
    assert_eq!(parse_u32(&Vec::new()), None);
    assert_eq!(parse_u32(&b"+".to_vec()), None);
    assert_eq!(parse_u32(&b"-1".to_vec()), None);
    assert_eq!(parse_u32(&b"12a".to_vec()), None);
    assert_eq!(parse_u32(&b" 3".to_vec()), None);
    assert_eq!(parse_u32(&b"4294967296".to_vec()), None);
    assert_eq!(parse_u32(&b"99999999999999999999".to_vec()), None);
}

#[test]
fn config_defaults_when_nothing_is_set() {
    let c = resolve_config(&None, &None, &None);
    assert_eq!(c.total_hosts, 8);
    assert_eq!(c.shard_size, 2);
}

#[test]
fn config_defaults_when_values_are_malformed() {
    let c = resolve_config(
        &Some(b"eight".to_vec()),
        &Some(b"".to_vec()),
        &Some(b"2x".to_vec()),
    );
    assert_eq!(c.total_hosts, 8);
    assert_eq!(c.shard_size, 2);
}

#[test]
fn config_tenant_value_wins_over_default() {
    let c = resolve_config(&Some(b"16".to_vec()), &Some(b"4".to_vec()), &Some(b"3".to_vec()));
    assert_eq!(c.total_hosts, 16);
    assert_eq!(c.shard_size, 4);
}

#[test]
fn config_falls_back_to_default_shard_size() {
    let c = resolve_config(&Some(b"16".to_vec()), &Some(b"bad".to_vec()), &Some(b"3".to_vec()));
    assert_eq!(c.shard_size, 3);
    let c = resolve_config(&Some(b"16".to_vec()), &None, &Some(b"5".to_vec()));
    assert_eq!(c.shard_size, 5);
}

#[test]
fn config_clamps_shard_size_to_total_hosts() {
    let c = resolve_config(&Some(b"3".to_vec()), &Some(b"5".to_vec()), &None);
    assert_eq!(c.total_hosts, 3);
    assert_eq!(c.shard_size, 3);
    assert!(c.shard_size <= c.total_hosts);
}

#[test]
fn config_clamp_holds_across_inputs() {
    let samples: Vec<Option<Vec<u8>>> = vec![
        None,
        Some(b"0".to_vec()),
        Some(b"1".to_vec()),
        Some(b"7".to_vec()),
        Some(b"100".to_vec()),
        Some(b"junk".to_vec()),
    ];
    for total in &samples {
        for tenant in &samples {
            for default in &samples {
                let c = resolve_config(total, tenant, default);
                assert!(c.shard_size <= c.total_hosts);
            }
        }
    }
}

#[test]
fn config_zero_hosts_clamps_shard_size_to_zero() {
    // A host count property of "0" parses; the default shard size of 2 is
    // then clamped down to the empty pool.
    let c = resolve_config(&Some(b"0".to_vec()), &None, &None);
    assert_eq!(c.total_hosts, 0);
    assert_eq!(c.shard_size, 0);
}

#[test]
fn customer_key_embeds_tenant() {
    let key = customer_shard_size_key(&b"acme".to_vec());
    assert_eq!(key, b"shuffle_sharding.customer.acme.shard_size".to_vec());
}

#[test]
fn encoders_render_attributes() {
    let c = resolve_config(&None, &None, &None);
    assert_eq!(encode_config(&c), b"2/8".to_vec());
    assert_eq!(encode_assignment(&vec![5, 6]), b"5,6".to_vec());
    assert_eq!(encode_assignment(&vec![12]), b"12".to_vec());
    assert_eq!(encode_assignment(&Vec::new()), Vec::<u8>::new());
    assert_eq!(encode_cluster(5), b"backend_5".to_vec());
    assert_eq!(encode_host(5), b"5".to_vec());
}
