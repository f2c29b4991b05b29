//! Per-provider token session: the state machine that gates fetching.
//!
//! Before any network fetch for a provider, its token must be fresh, and a
//! refreshed token must be durably persisted — a crash between refresh and
//! fetch must never lose the new refresh token.  The session records in a
//! ghost trace which lifecycle acts happened, and its invariant pins the
//! only orders the machine permits: a session that began fresh reaches
//! `Ready` with an empty trace, and one that began stale reaches `Ready`
//! only through exactly one refresh followed by one persist.  The
//! surrounding application drives the machine: it performs the act the
//! session asks for next and reports the outcome back.

use vstd::prelude::*;

use crate::errors::AuthError;
use crate::errors::SyncError;
use crate::provider::Config;
use crate::provider::Credentials;
use crate::provider::Provider;
use crate::token::spec_needs_refresh;

verus! {

/// A lifecycle act the session has carried out, as recorded in the trace.
#[derive(Clone, Copy, Debug, PartialEq, Eq, Structural)]
pub enum SessionAct {
    /// The token was exchanged for a fresh one.
    Refreshed,
    /// The refreshed token was durably written back to configuration.
    Persisted,
}

/// Where the session stands.
#[derive(Clone, Copy, Debug, PartialEq, Eq, Structural)]
pub enum SessionPhase {
    /// The token left the safety margin; a refresh must happen first.
    AwaitRefresh,
    /// The refresh succeeded; the new token must be persisted before use.
    AwaitPersist,
    /// The provider may be fetched from.
    Ready,
    /// The refresh token was revoked; only re-authorization can recover.
    Revoked,
    /// The session failed for another reason, recorded in `failure`.
    Failed,
}

/// The act the application should perform next for this session.
#[derive(Clone, Copy, Debug, PartialEq, Eq, Structural)]
pub enum SessionAction {
    /// Exchange the refresh token for a new access token.
    Refresh,
    /// Durably write the refreshed token back to configuration.
    Persist,
    /// Fetch accounts and transactions.
    Fetch,
    /// Give up on this provider and report its failure.
    Abort,
}

/// Whether a provider's credential must be refreshed before use at `now`
/// under the safety margin `margin`.  A static secret never refreshes.
pub open spec fn provider_needs_refresh(p: Provider, now: int, margin: int) -> bool {
    match p.credentials {
        Credentials::Session(t) => spec_needs_refresh(t.access_token_expiry as int, now, margin),
        Credentials::StaticSecret(_) => false,
    }
}

/// One provider's token session for one run.
pub struct ProviderSession {
    /// The provider, with its current (possibly refreshed) credential.
    pub provider: Provider,
    /// The run's clock snapshot, seconds since the epoch.
    pub now: u64,
    /// The expiry safety margin, in seconds.
    pub margin: u64,
    /// Where the session stands.
    pub phase: SessionPhase,
    /// The failure that ended the session, if one did.
    pub failure: Option<SyncError>,
    /// Whether the credential was outside the safety margin when the
    /// session began.
    pub needed_refresh: Ghost<bool>,
    /// The lifecycle acts carried out so far, in order.
    pub trace: Ghost<Seq<SessionAct>>,
}

impl ProviderSession {
    /// The session invariant: each phase pins the exact trace that led to
    /// it.  In particular `Ready` is reachable only with an empty trace
    /// (the credential was fresh) or the two-act trace refresh-then-persist.
    pub open spec fn wf(self) -> bool {
        &&& (self.phase == SessionPhase::AwaitRefresh ==> {
            &&& self.needed_refresh@
            &&& self.trace@ =~= Seq::<SessionAct>::empty()
            &&& self.provider.credentials is Session
            &&& self.failure is None
        })
        &&& (self.phase == SessionPhase::AwaitPersist ==> {
            &&& self.needed_refresh@
            &&& self.trace@ =~= seq![SessionAct::Refreshed]
            &&& self.provider.credentials is Session
            &&& self.failure is None
        })
        &&& (self.phase == SessionPhase::Ready ==> {
            &&& (self.needed_refresh@ ==> self.trace@ =~= seq![
                SessionAct::Refreshed,
                SessionAct::Persisted,
            ])
            &&& (!self.needed_refresh@ ==> self.trace@ =~= Seq::<SessionAct>::empty())
            &&& self.failure is None
        })
        &&& (self.phase == SessionPhase::Revoked ==> self.failure == Some(
            SyncError::Auth(AuthError::RefreshRevoked),
        ))
        &&& (self.phase == SessionPhase::Failed ==> self.failure is Some)
    }

    /// Open a session for `provider` at time `now` under margin `margin`.
    /// A fresh credential is ready at once; a stale one must refresh first.
    pub fn begin(provider: Provider, now: u64, margin: u64) -> (s: ProviderSession)
        ensures
            s.wf(),
            s.provider == provider,
            s.now == now,
            s.margin == margin,
            s.failure is None,
            s.needed_refresh@ == provider_needs_refresh(provider, now as int, margin as int),
            s.phase == (if provider_needs_refresh(provider, now as int, margin as int) {
                SessionPhase::AwaitRefresh
            } else {
                SessionPhase::Ready
            }),
            s.trace@ =~= Seq::<SessionAct>::empty(),
    {
        let needs: bool = match &provider.credentials {
            Credentials::Session(t) => t.needs_refresh(now, margin),
            Credentials::StaticSecret(_) => false,
        };
        ProviderSession {
            provider,
            now,
            margin,
            phase: if needs {
                SessionPhase::AwaitRefresh
            } else {
                SessionPhase::Ready
            },
            failure: None,
            needed_refresh: Ghost(needs),
            trace: Ghost(Seq::empty()),
        }
    }

    /// The act the application should perform next.
    pub fn next_action(&self) -> (a: SessionAction)
        ensures
            a == (match self.phase {
                SessionPhase::AwaitRefresh => SessionAction::Refresh,
                SessionPhase::AwaitPersist => SessionAction::Persist,
                SessionPhase::Ready => SessionAction::Fetch,
                SessionPhase::Revoked => SessionAction::Abort,
                SessionPhase::Failed => SessionAction::Abort,
            }),
    {
        match self.phase {
            SessionPhase::AwaitRefresh => SessionAction::Refresh,
            SessionPhase::AwaitPersist => SessionAction::Persist,
            SessionPhase::Ready => SessionAction::Fetch,
            SessionPhase::Revoked => SessionAction::Abort,
            SessionPhase::Failed => SessionAction::Abort,
        }
    }

    /// Record a successful token refresh.  The token takes the new
    /// credentials, its expiry never decreases, and the session now awaits
    /// the persist of the refreshed token.
    pub fn refresh_succeeded(&mut self, access_token: String, refresh_token: String, new_expiry: u64)
        requires
            old(self).wf(),
            old(self).phase == SessionPhase::AwaitRefresh,
        ensures
            final(self).wf(),
            final(self).phase == SessionPhase::AwaitPersist,
            final(self).provider.id == old(self).provider.id,
            final(self).provider.kind == old(self).provider.kind,
            final(self).provider.credentials is Session,
            ({
                let t_old = old(self).provider.credentials->Session_0;
                let t_new = final(self).provider.credentials->Session_0;
                &&& t_new.display_name == t_old.display_name
                &&& t_new.access_token == access_token
                &&& t_new.refresh_token == refresh_token
                &&& t_new.access_token_expiry >= t_old.access_token_expiry
                &&& t_new.access_token_expiry >= new_expiry
            }),
            final(self).trace@ =~= old(self).trace@.push(SessionAct::Refreshed),
            final(self).now == old(self).now,
            final(self).margin == old(self).margin,
            final(self).failure == old(self).failure,
            final(self).needed_refresh@ == old(self).needed_refresh@,
    {
        let new_credentials: Credentials = match &self.provider.credentials {
            Credentials::Session(t) => Credentials::Session(
                t.clone().refreshed(access_token, refresh_token, new_expiry),
            ),
            Credentials::StaticSecret(s) => Credentials::StaticSecret(s.clone()),
        };
        self.provider.credentials = new_credentials;
        self.phase = SessionPhase::AwaitPersist;
        self.trace = Ghost(self.trace@.push(SessionAct::Refreshed));
    }

    /// Record a failed token refresh.  A revoked refresh token is terminal
    /// for the provider and is flagged distinctly; any other failure ends
    /// the session with its error.  No fetch will be permitted.
    pub fn refresh_failed(&mut self, e: SyncError)
        requires
            old(self).wf(),
            old(self).phase == SessionPhase::AwaitRefresh,
        ensures
            final(self).wf(),
            final(self).phase == (if e == SyncError::Auth(AuthError::RefreshRevoked) {
                SessionPhase::Revoked
            } else {
                SessionPhase::Failed
            }),
            final(self).failure == Some(e),
            final(self).provider == old(self).provider,
            final(self).trace@ =~= old(self).trace@,
            final(self).now == old(self).now,
            final(self).margin == old(self).margin,
            final(self).needed_refresh@ == old(self).needed_refresh@,
    {
        let revoked: bool = match e {
            SyncError::Auth(AuthError::RefreshRevoked) => true,
            _ => false,
        };
        self.phase = if revoked {
            SessionPhase::Revoked
        } else {
            SessionPhase::Failed
        };
        self.failure = Some(e);
    }

    /// Record that the refreshed token was durably persisted.  Only now
    /// does the session permit fetching.
    pub fn persisted(&mut self)
        requires
            old(self).wf(),
            old(self).phase == SessionPhase::AwaitPersist,
        ensures
            final(self).wf(),
            final(self).phase == SessionPhase::Ready,
            final(self).provider == old(self).provider,
            final(self).trace@ =~= old(self).trace@.push(SessionAct::Persisted),
            final(self).now == old(self).now,
            final(self).margin == old(self).margin,
            final(self).needed_refresh@ == old(self).needed_refresh@,
    {
        self.phase = SessionPhase::Ready;
        self.trace = Ghost(self.trace@.push(SessionAct::Persisted));
    }

    /// Record that persisting the refreshed token failed.  The session
    /// ends: fetching with an unpersisted refresh token could lose it.
    pub fn persist_failed(&mut self, e: SyncError)
        requires
            old(self).wf(),
            old(self).phase == SessionPhase::AwaitPersist,
        ensures
            final(self).wf(),
            final(self).phase == (if e == SyncError::Auth(AuthError::RefreshRevoked) {
                SessionPhase::Revoked
            } else {
                SessionPhase::Failed
            }),
            final(self).failure == Some(e),
            final(self).provider == old(self).provider,
            final(self).trace@ =~= old(self).trace@,
    {
        let revoked: bool = match e {
            SyncError::Auth(AuthError::RefreshRevoked) => true,
            _ => false,
        };
        self.phase = if revoked {
            SessionPhase::Revoked
        } else {
            SessionPhase::Failed
        };
        self.failure = Some(e);
    }

    /// Whether the session permits fetching.
    pub fn may_fetch(&self) -> (b: bool)
        ensures
            b == (self.phase == SessionPhase::Ready),
    {
        match self.phase {
            SessionPhase::Ready => true,
            _ => false,
        }
    }

    /// The failure a fetch attempt should surface instead of proceeding,
    /// if the session does not permit fetching.
    pub fn fetch_error(&self) -> (r: Option<SyncError>)
        ensures
            r == self.failure,
            self.wf() && self.phase == SessionPhase::Ready ==> r is None,
            self.wf() && self.phase == SessionPhase::Revoked ==> r == Some(
                SyncError::Auth(AuthError::RefreshRevoked),
            ),
    {
        self.failure
    }

    /// The secret to authenticate provider calls with: the access token of
    /// an OAuth session, or the static secret.
    pub fn access_secret(&self) -> (r: &String)
        ensures
            *r == (match self.provider.credentials {
                Credentials::Session(t) => t.access_token,
                Credentials::StaticSecret(s) => s,
            }),
    {
        match &self.provider.credentials {
            Credentials::Session(t) => &t.access_token,
            Credentials::StaticSecret(s) => s,
        }
    }
}

/// Eager refresh, exactly once: a session that reached `Ready` refreshed
/// exactly once if its credential began outside the safety margin, and
/// never refreshed if it began fresh.
pub proof fn lemma_eager_refresh(s: ProviderSession)
    requires
        s.wf(),
        s.phase == SessionPhase::Ready,
    ensures
        s.needed_refresh@ ==> s.trace@ =~= seq![SessionAct::Refreshed, SessionAct::Persisted],
        !s.needed_refresh@ ==> s.trace@ =~= Seq::<SessionAct>::empty(),
{
}

/// Refresh persistence ordering: a session that refreshed reached `Ready`
/// only with the persist recorded after the refresh — the new refresh
/// token is durable before any fetch is attempted.
pub proof fn lemma_persist_before_fetch(s: ProviderSession)
    requires
        s.wf(),
        s.phase == SessionPhase::Ready,
        s.needed_refresh@,
    ensures
        s.trace@.len() == 2,
        s.trace@[0] == SessionAct::Refreshed,
        s.trace@[1] == SessionAct::Persisted,
{
}

/// Materialize one session per configured provider, in configuration
/// order, each classified against the same clock snapshot and margin.
pub fn begin_sessions(config: &Config, now: u64, margin: u64) -> (ss: Vec<ProviderSession>)
    ensures
        ss@.len() == config.providers@.len(),
        forall|i: int|
            0 <= i < ss@.len() ==> {
                let s = #[trigger] ss@[i];
                &&& s.wf()
                &&& s.provider == config.providers@[i]
                &&& s.now == now
                &&& s.margin == margin
                &&& s.needed_refresh@ == provider_needs_refresh(
                    config.providers@[i],
                    now as int,
                    margin as int,
                )
                &&& s.phase == (if provider_needs_refresh(
                    config.providers@[i],
                    now as int,
                    margin as int,
                ) {
                    SessionPhase::AwaitRefresh
                } else {
                    SessionPhase::Ready
                })
            },
{
    let n: usize = config.providers.len();
    let mut ss: Vec<ProviderSession> = Vec::new();
    let mut i: usize = 0;
    while i < n
        invariant
            n == config.providers@.len(),
            i <= n,
            ss@.len() == i,
            forall|k: int|
                0 <= k < i ==> {
                    let s = #[trigger] ss@[k];
                    &&& s.wf()
                    &&& s.provider == config.providers@[k]
                    &&& s.now == now
                    &&& s.margin == margin
                    &&& s.needed_refresh@ == provider_needs_refresh(
                        config.providers@[k],
                        now as int,
                        margin as int,
                    )
                    &&& s.phase == (if provider_needs_refresh(
                        config.providers@[k],
                        now as int,
                        margin as int,
                    ) {
                        SessionPhase::AwaitRefresh
                    } else {
                        SessionPhase::Ready
                    })
                },
        decreases n - i,
    {
        let p: Provider = config.providers[i].clone();
        let s = ProviderSession::begin(p, now, margin);
        ss.push(s);
        i = i + 1;
    }
    ss
}

} // verus!
