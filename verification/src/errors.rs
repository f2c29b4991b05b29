//! Error taxonomy of the synchronization engine and the retry policy
//! applied to failed provider operations.

use vstd::prelude::*;

verus! {

/// Credential failures.  `RefreshRevoked` is terminal for a provider: the
/// authorization server rejected the refresh token, so only interactive
/// re-authorization can recover it and the engine must not retry.
#[derive(Clone, Copy, Debug, PartialEq, Eq, Structural)]
pub enum AuthError {
    /// The refresh token was rejected by the authorization server.
    RefreshRevoked,
    /// The current access token was rejected or has expired.
    Unauthorized,
}

/// Failure modes of one provider or ledger operation.
#[derive(Clone, Copy, Debug, PartialEq, Eq, Structural)]
pub enum SyncError {
    /// Expired or revoked credential.
    Auth(AuthError),
    /// Transport failure; transient, retried with backoff.
    Network,
    /// The provider signalled throttling; the payload is the delay in
    /// seconds it indicated before the next attempt.
    RateLimit(u64),
    /// Application-level rejection (non-2xx response); never retried.
    Provider,
}

/// What the caller of a failed operation should do next.
#[derive(Clone, Copy, Debug, PartialEq, Eq, Structural)]
pub enum RetryDecision {
    /// Try the same operation again after the given delay in seconds.
    RetryAfter(u64),
    /// Refresh the provider token once, then try the operation again.
    RefreshAndRetry,
    /// Surface the error; no further attempt is useful.
    GiveUp,
}

/// Base delay in seconds for the exponential network backoff.
pub const BACKOFF_BASE_SECS: u64 = 1;

/// Upper bound in seconds on any backoff delay.
pub const BACKOFF_CAP_SECS: u64 = 64;

/// Delay before retry number `attempt` (counted from 0) of a transient
/// network failure: exponential in the attempt number, capped.
pub open spec fn spec_backoff_delay(attempt: u64) -> u64 {
    if attempt >= 6 {
        BACKOFF_CAP_SECS
    } else if (BACKOFF_BASE_SECS << attempt) > BACKOFF_CAP_SECS {
        BACKOFF_CAP_SECS
    } else {
        BACKOFF_BASE_SECS << attempt
    }
}

/// Exponential backoff delay for the given attempt number, capped at
/// [`BACKOFF_CAP_SECS`].
pub fn backoff_delay(attempt: u64) -> (d: u64)
    ensures
        d == spec_backoff_delay(attempt),
        d <= BACKOFF_CAP_SECS,
{
    if attempt >= 6 {
        BACKOFF_CAP_SECS
    } else {
        let raw: u64 = BACKOFF_BASE_SECS << attempt;
        assert(raw <= 32) by (bit_vector)
            requires
                raw == 1u64 << attempt && attempt < 6,
        ;
        if raw > BACKOFF_CAP_SECS {
            BACKOFF_CAP_SECS
        } else {
            raw
        }
    }
}

/// The retry policy: how a failed provider operation is handled, given the
/// error and how many attempts have already been made.
///
/// - `RefreshRevoked` is terminal and never retried.
/// - Any other credential failure triggers one refresh-and-retry; a second
///   credential failure is surfaced.
/// - Network failures are retried with exponential backoff up to
///   `max_attempts` total attempts.
/// - Rate limiting is retried after the provider-indicated delay, up to
///   `max_attempts` total attempts.
/// - Application-level rejections are surfaced immediately.
pub open spec fn spec_retry_decision(e: SyncError, attempt: u64, max_attempts: u64) -> RetryDecision {
    match e {
        SyncError::Auth(AuthError::RefreshRevoked) => RetryDecision::GiveUp,
        SyncError::Auth(AuthError::Unauthorized) => if attempt == 0 {
            RetryDecision::RefreshAndRetry
        } else {
            RetryDecision::GiveUp
        },
        SyncError::Network => if attempt + 1 < max_attempts {
            RetryDecision::RetryAfter(spec_backoff_delay(attempt))
        } else {
            RetryDecision::GiveUp
        },
        SyncError::RateLimit(delay) => if attempt + 1 < max_attempts {
            RetryDecision::RetryAfter(delay)
        } else {
            RetryDecision::GiveUp
        },
        SyncError::Provider => RetryDecision::GiveUp,
    }
}

/// Decide how to handle a failed operation; see [`spec_retry_decision`].
pub fn retry_decision(e: &SyncError, attempt: u64, max_attempts: u64) -> (r: RetryDecision)
    ensures
        r == spec_retry_decision(*e, attempt, max_attempts),
{
    match e {
        SyncError::Auth(AuthError::RefreshRevoked) => RetryDecision::GiveUp,
        SyncError::Auth(AuthError::Unauthorized) => {
            if attempt == 0 {
                RetryDecision::RefreshAndRetry
            } else {
                RetryDecision::GiveUp
            }
        },
        SyncError::Network => {
            if attempt < u64::MAX && attempt + 1 < max_attempts {
                RetryDecision::RetryAfter(backoff_delay(attempt))
            } else {
                RetryDecision::GiveUp
            }
        },
        SyncError::RateLimit(delay) => {
            if attempt < u64::MAX && attempt + 1 < max_attempts {
                RetryDecision::RetryAfter(*delay)
            } else {
                RetryDecision::GiveUp
            }
        },
        SyncError::Provider => RetryDecision::GiveUp,
    }
}

} // verus!
