//! The per-request pipeline: gate, resolve, shard, select, encode.
//!
//! A request without a tenant identity is rejected with a fixed `400`
//! plain-text response before any computation.  Otherwise the configuration
//! is resolved from the raw property values, the tenant's shard and sticky
//! host are computed, and the outbound routing attributes are rendered.
//! Nothing survives the call: every value is derived fresh from the
//! arguments.

use vstd::prelude::*;
use crate::config::{opt_bytes, resolve_config, resolved_config, ShardConfig};
use crate::encode::{
    cluster_name, config_summary, encode_assignment, encode_cluster, encode_config, encode_host,
    join_decimals,
};
use crate::select::{select_host, spec_select};
use crate::shard::{compute_shard, spec_shard};
use crate::text::{copy_bytes, dec_digits};

verus! {

/// The complete result of one request's computation.
#[derive(Debug)]
pub struct RoutingDecision {
    /// The tenant's shard: distinct host indices in selection order.
    pub shard: Vec<u32>,
    /// The member of the shard this request is routed to.
    pub selected_host: u32,
    /// The resolved (clamped) configuration the shard was derived from.
    pub config: ShardConfig,
}

/// The rendered outbound attribute values of a routing decision.
#[derive(Debug)]
pub struct RouteHeaders {
    /// Comma-joined decimal host indices, in selection order.
    pub shard_assignment: Vec<u8>,
    /// `<shard_size>/<total_hosts>`, after clamping.
    pub shard_config: Vec<u8>,
    /// `backend_<selected_host>`.
    pub target_cluster: Vec<u8>,
    /// The selected host index in decimal.
    pub target_host: Vec<u8>,
}

/// The early error response a gated request is answered with.
#[derive(Debug)]
pub struct ErrorResponse {
    pub status: u32,
    pub content_type: Vec<u8>,
    pub body: Vec<u8>,
}

/// What processing one request yields: an early rejection, or a routing
/// decision with its rendered attributes.
#[derive(Debug)]
pub enum Outcome {
    Reject(ErrorResponse),
    Route(RoutingDecision, RouteHeaders),
}

/// The rejection body (`Missing x-customer-id header`).
pub open spec fn missing_tenant_body() -> Seq<u8> {
    seq![
        ('M' as u8), ('i' as u8), ('s' as u8), ('s' as u8), ('i' as u8), ('n' as u8), ('g' as u8),
        (' ' as u8), ('x' as u8), ('-' as u8), ('c' as u8), ('u' as u8), ('s' as u8), ('t' as u8),
        ('o' as u8), ('m' as u8), ('e' as u8), ('r' as u8), ('-' as u8), ('i' as u8), ('d' as u8),
        (' ' as u8), ('h' as u8), ('e' as u8), ('a' as u8), ('d' as u8), ('e' as u8), ('r' as u8),
    ]
}

/// The rejection content type (`text/plain`).
pub open spec fn plain_text() -> Seq<u8> {
    seq![
        ('t' as u8), ('e' as u8), ('x' as u8), ('t' as u8), ('/' as u8), ('p' as u8), ('l' as u8),
        ('a' as u8), ('i' as u8), ('n' as u8),
    ]
}

/// The path selection uses: the request path, or `/` when none came.
pub open spec fn effective_path(path: Option<Seq<u8>>) -> Seq<u8> {
    match path {
        Some(p) => p,
        None => seq![('/' as u8)],
    }
}

/// The outcome is the rejection a request without tenant identity is owed:
/// status `400`, `text/plain`, the fixed body, and no routing attributes.
pub open spec fn is_missing_tenant_rejection(out: Outcome) -> bool {
    match out {
        Outcome::Reject(e) => e.status == 400 && e.content_type@ == plain_text() && e.body@
            == missing_tenant_body(),
        Outcome::Route(_, _) => false,
    }
}

/// The outcome is the routing decision owed to `tenant` under `config` and
/// `path`, with every attribute rendered from it.
pub open spec fn is_decision_for(
    out: Outcome,
    tenant: Seq<u8>,
    path: Option<Seq<u8>>,
    config: ShardConfig,
) -> bool {
    match out {
        Outcome::Route(d, h) => {
            let shard = spec_shard(tenant, config);
            let selected = spec_select(shard, config.shard_size, effective_path(path));
            &&& d.config == config
            &&& d.shard@ == shard
            &&& d.selected_host == selected
            &&& h.shard_assignment@ == join_decimals(shard)
            &&& h.shard_config@ == config_summary(config)
            &&& h.target_cluster@ == cluster_name(selected)
            &&& h.target_host@ == dec_digits(selected as int)
        },
        Outcome::Reject(_) => false,
    }
}

/// Builds the fixed rejection for a request without tenant identity.
fn missing_tenant_response() -> (e: ErrorResponse)
    ensures
        e.status == 400,
        e.content_type@ == plain_text(),
        e.body@ == missing_tenant_body(),
{
    let mut content_type: Vec<u8> = Vec::new();
    content_type.push('t' as u8);
    content_type.push('e' as u8);
    content_type.push('x' as u8);
    content_type.push('t' as u8);
    content_type.push('/' as u8);
    content_type.push('p' as u8);
    content_type.push('l' as u8);
    content_type.push('a' as u8);
    content_type.push('i' as u8);
    content_type.push('n' as u8);
    let mut body: Vec<u8> = Vec::new();
    body.push('M' as u8);
    body.push('i' as u8);
    body.push('s' as u8);
    body.push('s' as u8);
    body.push('i' as u8);
    body.push('n' as u8);
    body.push('g' as u8);
    body.push(' ' as u8);
    body.push('x' as u8);
    body.push('-' as u8);
    body.push('c' as u8);
    body.push('u' as u8);
    body.push('s' as u8);
    body.push('t' as u8);
    body.push('o' as u8);
    body.push('m' as u8);
    body.push('e' as u8);
    body.push('r' as u8);
    body.push('-' as u8);
    body.push('i' as u8);
    body.push('d' as u8);
    body.push(' ' as u8);
    body.push('h' as u8);
    body.push('e' as u8);
    body.push('a' as u8);
    body.push('d' as u8);
    body.push('e' as u8);
    body.push('r' as u8);
    proof {
        assert(content_type@ =~= plain_text());
        assert(body@ =~= missing_tenant_body());
    }
    ErrorResponse { status: 400, content_type, body }
}

/// Processes one request from the plain values the host hands over: the
/// tenant identity and path attributes, and the three raw configuration
/// property values (host count, tenant-specific shard size, default shard
/// size).
///
/// Without a tenant identity the result is exactly the fixed `400`
/// rejection and nothing is computed.  With one, the result is the routing
/// decision for the resolved configuration, with all four attributes
/// rendered.  The resolved configuration must leave at least one host and a
/// positive shard size; a resolved count of zero has no host to route to.
pub fn handle_request(
    tenant: &Option<Vec<u8>>,
    path: &Option<Vec<u8>>,
    total_prop: &Option<Vec<u8>>,
    tenant_prop: &Option<Vec<u8>>,
    default_prop: &Option<Vec<u8>>,
) -> (out: Outcome)
    requires
        tenant.is_some() ==> ({
            let config = resolved_config(
                opt_bytes(*total_prop),
                opt_bytes(*tenant_prop),
                opt_bytes(*default_prop),
            );
            config.total_hosts >= 1 && config.shard_size >= 1
        }),
    ensures
        tenant.is_none() ==> is_missing_tenant_rejection(out),
        (tenant matches Some(t) ==> is_decision_for(
            out,
            t@,
            opt_bytes(*path),
            resolved_config(opt_bytes(*total_prop), opt_bytes(*tenant_prop), opt_bytes(*default_prop)),
        )),
{
    let tenant_bytes = match tenant {
        Some(t) => t,
        None => {
            return Outcome::Reject(missing_tenant_response());
        },
    };
    let config = resolve_config(total_prop, tenant_prop, default_prop);
    let shard = compute_shard(tenant_bytes, &config);
    let request_path: Vec<u8> = match path {
        Some(p) => copy_bytes(p),
        None => {
            let mut p: Vec<u8> = Vec::new();
            p.push('/' as u8);
            proof {
                assert(p@ =~= effective_path(opt_bytes(*path)));
            }
            p
        },
    };
    let selected_host = select_host(&shard, config.shard_size, &request_path);
    let shard_assignment = encode_assignment(&shard);
    let shard_config = encode_config(&config);
    let target_cluster = encode_cluster(selected_host);
    let target_host = encode_host(selected_host);
    Outcome::Route(
        RoutingDecision { shard, selected_host, config },
        RouteHeaders { shard_assignment, shard_config, target_cluster, target_host },
    )
}

} // verus!
