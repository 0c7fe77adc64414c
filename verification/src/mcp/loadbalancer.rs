//! Connection pooling for the load balancer: the figures kept per connection, how a
//! pool decides to serve a request, which idle connections it keeps, and how often a
//! failed attempt is retried. Times are milliseconds since the Unix epoch.

use crate::error::NexaError;
use crate::text::owned;
use vstd::prelude::*;

verus! {

/// Figures kept about a pooled connection.
#[derive(Debug, Clone, Copy)]
pub struct ConnectionStats {
    pub created_at_ms: u64,
    pub last_used_ms: u64,
    pub total_requests: u64,
    pub errors: u64,
    pub avg_response_time_ms: u64,
}

/// How a pool serves a request.
#[derive(Debug, Clone, Copy, PartialEq, Eq, Structural)]
pub enum Acquire {
    /// Hand out the oldest idle connection.
    ReuseIdle,
    /// The oldest idle connection outlived its lifetime: open a new one in its place.
    ReplaceIdle,
    /// No idle connection: open a new one.
    OpenNew,
}

/// Whether a connection made at `created` has outlived `max_lifetime` at `now`; a
/// creation time after `now` counts as no age.
pub open spec fn outlived(created: u64, now: u64, max_lifetime: u64) -> bool {
    now >= created && now - created > max_lifetime
}

/// A pool's decision for a request at `now_ms`: the oldest idle connection is reused
/// unless it outlived its lifetime; without idle connections a new one is opened while
/// fewer than `max_size` are in use; otherwise the pool is exhausted.
pub fn plan_acquire(
    oldest_idle_created_ms: Option<u64>,
    now_ms: u64,
    max_lifetime_ms: u64,
    in_use: usize,
    max_size: usize,
) -> (r: Result<Acquire, NexaError>)
    ensures
        match oldest_idle_created_ms {
            Some(c) => r == Ok::<Acquire, NexaError>(
                if outlived(c, now_ms, max_lifetime_ms) {
                    Acquire::ReplaceIdle
                } else {
                    Acquire::ReuseIdle
                },
            ),
            None => if in_use < max_size {
                r == Ok::<Acquire, NexaError>(Acquire::OpenNew)
            } else {
                r matches Err(e) && (e matches NexaError::System(m) && m@ == "Connection pool exhausted"@)
            },
        },
{
    match oldest_idle_created_ms {
        Some(c) => {
            if now_ms >= c && now_ms - c > max_lifetime_ms {
                Ok(Acquire::ReplaceIdle)
            } else {
                Ok(Acquire::ReuseIdle)
            }
        },
        None => {
            if in_use < max_size {
                Ok(Acquire::OpenNew)
            } else {
                Err(NexaError::System(owned("Connection pool exhausted")))
            }
        },
    }
}

/// Whether an idle connection made at `created` is kept at `now`: not older than its
/// lifetime, and not made after `now`.
pub open spec fn kept_idle(created: u64, now: u64, max_lifetime: u64) -> bool {
    created <= now && now - created <= max_lifetime
}

/// The creation times of the idle connections kept at `now_ms`, in order.
pub fn cleanup_idle(created_ms: &Vec<u64>, now_ms: u64, max_lifetime_ms: u64) -> (r: Vec<u64>)
    ensures
        r@ == created_ms@.filter(|c: u64| kept_idle(c, now_ms, max_lifetime_ms)),
{
    let mut r: Vec<u64> = Vec::new();
    let mut i: usize = 0;
    while i < created_ms.len()
        invariant
            i <= created_ms@.len(),
            r@ == created_ms@.take(i as int).filter(|c: u64| kept_idle(c, now_ms, max_lifetime_ms)),
        decreases created_ms@.len() - i,
    {
        proof {
            assert(created_ms@.take(i as int + 1).drop_last() =~= created_ms@.take(i as int));
            reveal_with_fuel(Seq::filter, 1);
        }
        let c = created_ms[i];
        if c <= now_ms && now_ms - c <= max_lifetime_ms {
            r.push(c);
        }
        i = i + 1;
    }
    assert(created_ms@.take(created_ms@.len() as int) =~= created_ms@);
    r
}

/// Whether to wait and try again after `attempts` failed attempts out of `max_retries`.
pub fn should_retry(attempts: usize, max_retries: usize) -> (r: bool)
    ensures
        r == (attempts < max_retries),
{
    attempts < max_retries
}

/// The error reported when every attempt failed: the last failure, or a generic one
/// when no attempt was made.
pub fn final_failure(last_error: Option<NexaError>) -> (e: NexaError)
    ensures
        match last_error {
            Some(l) => e == l,
            None => e matches NexaError::System(m) && m@ == "Failed to get connection"@,
        },
{
    match last_error {
        Some(l) => l,
        None => NexaError::System(owned("Failed to get connection")),
    }
}

} // verus!
