//! Decision functions for the federated deployment of the orchestrator.
//!
//! In that deployment the caller-supplied user identifier is resolved to
//! the canonical storage identifier through the user directory, and the
//! post's existence is confirmed through the post store, before the
//! repository is touched. Those lookups are remote calls and live outside
//! this library; what the service decides on each outcome is here.
//!
//! The asymmetry is deliberate and preserved: the like flow answers a
//! missing user or post with a structured soft failure (`success ==
//! false`), while the unlike and read flows answer the same empty lookup
//! with a hard `NotFound` status.

use vstd::prelude::*;

use crate::error::{RpcCode, RpcStatus};
use crate::service::LikePostResponse;

verus! {

/// The like flow's gate on the user directory's existence check: a
/// missing user yields the soft-failure reply, an existing one lets the
/// flow continue.
pub fn like_user_gate(user_exists: bool) -> (r: Option<LikePostResponse>)
    ensures
        user_exists ==> r is None,
        !user_exists ==> (r matches Some(resp) && !resp.success && resp.message@
            == "User not found"@ && resp.liked_at is None),
{
    if user_exists {
        None
    } else {
        Some(
            LikePostResponse {
                success: false,
                message: "User not found".to_owned(),
                liked_at: None,
            },
        )
    }
}

/// The like flow's gate on the post store's existence check: a missing
/// post yields the soft-failure reply.
pub fn like_post_gate(post_exists: bool) -> (r: Option<LikePostResponse>)
    ensures
        post_exists ==> r is None,
        !post_exists ==> (r matches Some(resp) && !resp.success && resp.message@
            == "Post not found"@ && resp.liked_at is None),
{
    if post_exists {
        None
    } else {
        Some(
            LikePostResponse {
                success: false,
                message: "Post not found".to_owned(),
                liked_at: None,
            },
        )
    }
}

/// The round-robin rule of the collaborator client pools: serve the
/// client at the current position and advance by one, wrapping at the
/// pool's size. The pool itself holds live connections and lives outside
/// the library; only the selection is decided here.
pub fn round_robin_next(current: usize, pool_size: usize) -> (r: (usize, usize))
    requires
        current < pool_size,
    ensures
        r.0 == current,
        r.1 == (current + 1) % (pool_size as int),
        r.1 < pool_size,
{
    let next = (current + 1) % pool_size;
    (current, next)
}

/// What the unlike and read flows make of a user lookup: the canonical
/// identifier when the directory returned one, and a hard `NotFound`
/// status when it did not — unlike the like flow, which soft-fails on the
/// same outcome.
pub fn canonical_user_id(user: Option<String>) -> (r: Result<String, RpcStatus>)
    ensures
        user matches Some(id) ==> r == Ok::<String, RpcStatus>(id),
        user is None ==> (r matches Err(e) && e.code == RpcCode::NotFound && e.message@
            == "User not found"@),
{
    match user {
        Some(id) => Ok(id),
        None => Err(RpcStatus { code: RpcCode::NotFound, message: "User not found".to_owned() }),
    }
}

} // verus!
