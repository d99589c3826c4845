//! End-to-end tests of shard computation, sticky selection, the request
//! gate, and the full request pipeline.

use shuffle_shard::config::{resolve_config, ShardConfig};
use shuffle_shard::route::{handle_request, Outcome};
use shuffle_shard::select::select_host;
use shuffle_shard::shard::compute_shard;

fn distinct(shard: &[u32]) -> bool {
    for i in 0..shard.len() {
        for j in 0..i {
            if shard[i] == shard[j] {
                return false;
            }
        }
    }
    true
}

#[test]
fn shard_is_deterministic() {
    let config = ShardConfig { total_hosts: 8, shard_size: 2 };
    let tenant = b"acme".to_vec();
    assert_eq!(compute_shard(&tenant, &config), compute_shard(&tenant, &config));
}

#[test]
fn shard_entries_are_unique_and_bounded() {
    for tenant in [&b"acme"[..], b"globex", b"initech", b"x", b""] {
        for total in [1u32, 2, 3, 5, 8, 16] {
            for size in [1u32, 2, 3, 5, 8] {
                let size = size.min(total);
                let config = ShardConfig { total_hosts: total, shard_size: size };
                let shard = compute_shard(&tenant.to_vec(), &config);
                assert!(shard.len() <= size as usize);
                assert!(shard.len() <= total as usize);
                assert!(distinct(&shard));
                for h in &shard {
                    assert!(*h < total);
                }
            }
        }
    }
}

#[test]
fn shard_of_single_host_pool_is_host_zero() {
    let config = ShardConfig { total_hosts: 1, shard_size: 1 };
    assert_eq!(compute_shard(&b"acme".to_vec(), &config), vec![0]);
}

#[test]
fn shard_order_is_selection_order_not_numeric() {
    let config = ShardConfig { total_hosts: 3, shard_size: 3 };
    assert_eq!(compute_shard(&b"tenant-x".to_vec(), &config), vec![2, 0, 1]);
}

#[test]
fn selection_is_sticky() {
    let config = ShardConfig { total_hosts: 8, shard_size: 2 };
    let shard = compute_shard(&b"acme".to_vec(), &config);
    let first = select_host(&shard, config.shard_size, &b"/some/path".to_vec());
    let second = select_host(&shard, config.shard_size, &b"/some/path".to_vec());
    assert_eq!(first, second);
    for path in [&b"/"[..], b"/a", b"/b", b"/index.html"] {
        let host = select_host(&shard, config.shard_size, &path.to_vec());
        assert!(shard.contains(&host));
    }
}

#[test]
fn selection_falls_back_to_first_entry_when_position_is_unrealized() {
    // A realized shard of one entry with a requested size of two: a path
    // whose hash is odd lands on position 1, outside the shard.
    let shard = vec![7];
    assert_eq!(select_host(&shard, 2, &b"/a".to_vec()), 7);
}

#[test]
fn selection_on_empty_shard_is_host_zero() {
    assert_eq!(select_host(&Vec::new(), 2, &b"/a".to_vec()), 0);
}

#[test]
fn gate_rejects_missing_tenant() {
    let out = handle_request(&None, &Some(b"/".to_vec()), &None, &None, &None);
    match out {
        Outcome::Reject(e) => {
            assert_eq!(e.status, 400);
            assert_eq!(e.content_type, b"text/plain".to_vec());
            assert_eq!(e.body, b"Missing x-customer-id header".to_vec());
        }
        Outcome::Route(_, _) => panic!("a request without tenant identity must be rejected"),
    }
}

#[test]
fn scenario_default_config_routes_acme() {
    // total_hosts 8 (default), no shard-size properties: shard size
    // defaults to 2; the two seeds are acme_salt_0 and acme_salt_1.
    let tenant = Some(b"acme".to_vec());
    let out = handle_request(&tenant, &None, &None, &None, &None);
    match out {
        Outcome::Route(decision, headers) => {
            assert_eq!(decision.config.total_hosts, 8);
            assert_eq!(decision.config.shard_size, 2);
            assert_eq!(decision.shard.len(), 2);
            assert!(distinct(&decision.shard));
            assert_eq!(decision.shard, vec![5, 6]);
            assert_eq!(headers.shard_config, b"2/8".to_vec());
            assert_eq!(headers.shard_assignment, b"5,6".to_vec());
            assert_eq!(decision.selected_host, 5);
            assert_eq!(headers.target_cluster, b"backend_5".to_vec());
            assert_eq!(headers.target_host, b"5".to_vec());
        }
        Outcome::Reject(_) => panic!("a request with tenant identity must be routed"),
    }
}

#[test]
fn scenario_degenerate_sizing_is_clamped() {
    // total_hosts 3 with a requested shard size of 5: clamped to 3; the
    // shard stays within 3 distinct entries even if collision avoidance
    // gives up on a slot.
    let tenant = Some(b"acme".to_vec());
    let out = handle_request(
        &tenant,
        &None,
        &Some(b"3".to_vec()),
        &Some(b"5".to_vec()),
        &None,
    );
    match out {
        Outcome::Route(decision, headers) => {
            assert_eq!(decision.config, ShardConfig { total_hosts: 3, shard_size: 3 });
            assert_eq!(headers.shard_config, b"3/3".to_vec());
            assert!(decision.shard.len() <= 3);
            assert!(distinct(&decision.shard));
            for h in &decision.shard {
                assert!(*h < 3);
            }
        }
        Outcome::Reject(_) => panic!("a request with tenant identity must be routed"),
    }
}

#[test]
fn scenario_paths_select_within_the_shard() {
    // Same tenant and configuration, two different paths: each selection
    // is the path hash modulo the shard size, and both stay in the shard.
    let tenant = Some(b"acme".to_vec());
    let select = |path: &[u8]| {
        let out = handle_request(&tenant, &Some(path.to_vec()), &None, &None, &None);
        match out {
            Outcome::Route(decision, _) => {
                assert!(decision.shard.contains(&decision.selected_host));
                decision.selected_host
            }
            Outcome::Reject(_) => panic!("a request with tenant identity must be routed"),
        }
    };
    // The acme shard under the default configuration is [5, 6]; the hash
    // of "/a" is odd and that of "/b" is even.
    assert_eq!(select(b"/a"), 6);
    assert_eq!(select(b"/b"), 5);
    assert_eq!(select(b"/a"), select(b"/a"));
}

#[test]
fn pipeline_matches_component_composition() {
    let tenant = b"globex".to_vec();
    let total = Some(b"16".to_vec());
    let tenant_size = Some(b"4".to_vec());
    let config = resolve_config(&total, &tenant_size, &None);
    let shard = compute_shard(&tenant, &config);
    let host = select_host(&shard, config.shard_size, &b"/orders".to_vec());
    let out = handle_request(
        &Some(tenant.clone()),
        &Some(b"/orders".to_vec()),
        &total,
        &tenant_size,
        &None,
    );
    match out {
        Outcome::Route(decision, _) => {
            assert_eq!(decision.config, config);
            assert_eq!(decision.shard, shard);
            assert_eq!(decision.selected_host, host);
        }
        Outcome::Reject(_) => panic!("a request with tenant identity must be routed"),
    }
}
