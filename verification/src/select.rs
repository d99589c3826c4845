//! Sticky host selection: one host of the shard, chosen by the request
//! path.
//!
//! The path is hashed and reduced modulo the *requested* shard size, so the
//! same path always lands on the same position.  When the realized shard is
//! shorter than the requested size and the position falls outside it, the
//! first shard entry is used; an empty shard falls back to host `0`.

use vstd::prelude::*;
use crate::hash::{djb2, djb2_hash};

verus! {

/// The host index selection settles on for a path.
pub open spec fn spec_select(shard: Seq<u32>, shard_size: u32, path: Seq<u8>) -> u32 {
    let position = (djb2(path) as int) % (shard_size as int);
    if position < shard.len() {
        shard[position]
    } else if shard.len() > 0 {
        shard[0]
    } else {
        0
    }
}

/// Picks one host from the shard, deterministically from the request path.
pub fn select_host(shard: &Vec<u32>, shard_size: u32, path: &Vec<u8>) -> (host: u32)
    requires
        shard_size >= 1,
    ensures
        host == spec_select(shard@, shard_size, path@),
{
    let path_hash = djb2_hash(path);
    let position = (path_hash % (shard_size as u64)) as usize;
    if position < shard.len() {
        shard[position]
    } else if shard.len() > 0 {
        shard[0]
    } else {
        0
    }
}

/// Selection never leaves the shard: whatever the path, the selected host
/// is a member of the shard, or `0` when the shard is empty.  Together with
/// the functional contract of `select_host` this gives stickiness: equal
/// paths select equal hosts, and differing paths still select within the
/// same shard.
pub proof fn lemma_selected_in_shard(shard: Seq<u32>, shard_size: u32, path: Seq<u8>)
    requires
        shard_size >= 1,
    ensures
        shard.len() > 0 ==> shard.contains(spec_select(shard, shard_size, path)),
        shard.len() == 0 ==> spec_select(shard, shard_size, path) == 0,
{
    let position = (djb2(path) as int) % (shard_size as int);
    assert(0 <= position < shard_size);
    if shard.len() > 0 {
        if position < shard.len() {
            assert(shard.contains(shard[position]));
        } else {
            assert(shard.contains(shard[0]));
        }
    }
}

} // verus!
