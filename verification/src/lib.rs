//! Shuffle sharding for multi-tenant request routing.
//!
//! For each request the library derives, deterministically from the tenant
//! identity and a small configuration, an ordered duplicate-free subset of
//! backend host indices (the tenant's shard), picks one host from that shard
//! using the request path (sticky selection), and formats the outcome as a
//! set of routing attributes.  A request without a tenant identity is
//! rejected before any computation.

pub mod config;
pub mod encode;
pub mod hash;
pub mod route;
pub mod select;
pub mod shard;
pub mod text;
