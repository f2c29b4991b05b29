//! OAuth token state: freshness classification against a safety margin and
//! the pure parts of the refresh lifecycle.
//!
//! A token moves `Valid -> Expiring -> Expired` as time passes; the engine
//! refreshes it eagerly as soon as it leaves `Valid`, never reactively after
//! a provider rejection.  All timestamps are seconds since the epoch.

use vstd::prelude::*;

verus! {

/// One OAuth session with a provider: the short-lived access token, its
/// expiry, and the long-lived refresh token used to renew it.
pub struct Token {
    /// Human-readable name of the connected account relationship.
    pub display_name: String,
    /// Short-lived credential sent with provider API calls.
    pub access_token: String,
    /// Expiry of `access_token`, in seconds since the epoch.
    pub access_token_expiry: u64,
    /// Long-lived credential exchanged for a new access token.
    pub refresh_token: String,
}

/// Freshness of a token at a given moment.
#[derive(Clone, Copy, Debug, PartialEq, Eq, Structural)]
pub enum TokenState {
    /// Remaining lifetime is at least the safety margin.
    Valid,
    /// Still usable, but remaining lifetime has dropped under the margin.
    Expiring,
    /// The expiry has passed.
    Expired,
}

/// Freshness of a token whose expiry is `expiry`, at time `now`, under the
/// safety margin `margin` (all in seconds).
pub open spec fn spec_token_state(expiry: int, now: int, margin: int) -> TokenState {
    if expiry <= now {
        TokenState::Expired
    } else if expiry < now + margin {
        TokenState::Expiring
    } else {
        TokenState::Valid
    }
}

/// A token is refreshed before use unless it is `Valid`.
pub open spec fn spec_needs_refresh(expiry: int, now: int, margin: int) -> bool {
    spec_token_state(expiry, now, margin) != TokenState::Valid
}

impl Clone for Token {
    /// Field-for-field copy of the token.
    fn clone(&self) -> (r: Self)
        ensures
            r == *self,
    {
        Token {
            display_name: self.display_name.clone(),
            access_token: self.access_token.clone(),
            access_token_expiry: self.access_token_expiry,
            refresh_token: self.refresh_token.clone(),
        }
    }
}

impl Token {
    /// Classify this token's freshness at time `now` under `margin`.
    pub fn state(&self, now: u64, margin: u64) -> (s: TokenState)
        ensures
            s == spec_token_state(self.access_token_expiry as int, now as int, margin as int),
    {
        if self.access_token_expiry <= now {
            TokenState::Expired
        } else {
            let remaining: u64 = self.access_token_expiry - now;
            if remaining < margin {
                TokenState::Expiring
            } else {
                TokenState::Valid
            }
        }
    }

    /// Whether the engine must refresh this token before using it.
    pub fn needs_refresh(&self, now: u64, margin: u64) -> (b: bool)
        ensures
            b == spec_needs_refresh(self.access_token_expiry as int, now as int, margin as int),
    {
        let s = self.state(now, margin);
        match s {
            TokenState::Valid => false,
            TokenState::Expiring => true,
            TokenState::Expired => true,
        }
    }

    /// The token after a successful refresh: new access and refresh
    /// credentials, the display name kept, and the expiry clamped so it
    /// never decreases across refreshes of the same token.
    pub fn refreshed(self, access_token: String, refresh_token: String, new_expiry: u64) -> (r: Token)
        ensures
            r.display_name == self.display_name,
            r.access_token == access_token,
            r.refresh_token == refresh_token,
            r.access_token_expiry == vstd::math::max(
                self.access_token_expiry as int,
                new_expiry as int,
            ),
            r.access_token_expiry >= self.access_token_expiry,
            r.access_token_expiry >= new_expiry,
    {
        let expiry: u64 = if new_expiry >= self.access_token_expiry {
            new_expiry
        } else {
            self.access_token_expiry
        };
        Token {
            display_name: self.display_name,
            access_token,
            access_token_expiry: expiry,
            refresh_token,
        }
    }
}

/// Expiry timestamp of a token granted at `now` for `expires_in` seconds,
/// saturating at the largest representable time.
pub open spec fn spec_expiry_time(now: int, expires_in: int) -> int {
    if now + expires_in <= u64::MAX {
        now + expires_in
    } else {
        u64::MAX as int
    }
}

/// Compute the absolute expiry timestamp for a token granted at `now` with
/// a lifetime of `expires_in` seconds.
pub fn calculate_expiry_time(now: u64, expires_in: u64) -> (t: u64)
    ensures
        t == spec_expiry_time(now as int, expires_in as int),
{
    if expires_in <= u64::MAX - now {
        now + expires_in
    } else {
        u64::MAX
    }
}

impl Token {
    /// The token a fresh authorization grant produces: the granted
    /// credentials under the given display name, expiring `expires_in`
    /// seconds after `now`.
    pub fn from_authorization(
        display_name: String,
        access_token: String,
        refresh_token: String,
        now: u64,
        expires_in: u64,
    ) -> (t: Token)
        ensures
            t.display_name == display_name,
            t.access_token == access_token,
            t.refresh_token == refresh_token,
            t.access_token_expiry == spec_expiry_time(now as int, expires_in as int),
    {
        let access_token_expiry = calculate_expiry_time(now, expires_in);
        Token { display_name, access_token, access_token_expiry, refresh_token }
    }
}

} // verus!
