use sync_ynab::errors::AuthError;
use sync_ynab::errors::SyncError;
use sync_ynab::provider::Config;
use sync_ynab::provider::Credentials;
use sync_ynab::provider::LedgerCredential;
use sync_ynab::provider::Provider;
use sync_ynab::provider::ProviderKind;
use sync_ynab::session::begin_sessions;
use sync_ynab::session::ProviderSession;
use sync_ynab::session::SessionAction;
use sync_ynab::token::calculate_expiry_time;
use sync_ynab::token::Token;
use sync_ynab::token::TokenState;

const NOW: u64 = 1_000_000;
const MARGIN: u64 = 300;

fn token(expiry: u64) -> Token {
    Token {
        display_name: "checking".to_string(),
        access_token: "access-1".to_string(),
        access_token_expiry: expiry,
        refresh_token: "refresh-1".to_string(),
    }
}

fn provider(id: &str, expiry: u64) -> Provider {
    Provider {
        id: id.to_string(),
        kind: ProviderKind::OpenBanking,
        credentials: Credentials::Session(token(expiry)),
    }
}

#[test]
fn token_state_boundaries() {
    assert_eq!(token(NOW).state(NOW, MARGIN), TokenState::Expired);
    assert_eq!(token(NOW - 1).state(NOW, MARGIN), TokenState::Expired);
    assert_eq!(token(NOW + 1).state(NOW, MARGIN), TokenState::Expiring);
    assert_eq!(token(NOW + MARGIN - 1).state(NOW, MARGIN), TokenState::Expiring);
    assert_eq!(token(NOW + MARGIN).state(NOW, MARGIN), TokenState::Valid);
    assert!(token(NOW + 120).needs_refresh(NOW, MARGIN));
    assert!(!token(NOW + 100_000).needs_refresh(NOW, MARGIN));
}

#[test]
fn expiry_time_adds_and_saturates() {
    assert_eq!(calculate_expiry_time(100, 50), 150);
    assert_eq!(calculate_expiry_time(u64::MAX - 5, 10), u64::MAX);
}

#[test]
fn refreshed_token_expiry_never_decreases() {
    let t = token(NOW + 500);
    let r = t.refreshed("access-2".to_string(), "refresh-2".to_string(), NOW + 400);
    assert_eq!(r.access_token_expiry, NOW + 500);
    assert_eq!(r.access_token, "access-2");
    assert_eq!(r.refresh_token, "refresh-2");
    assert_eq!(r.display_name, "checking");

    let t2 = token(NOW + 500);
    let r2 = t2.refreshed("access-3".to_string(), "refresh-3".to_string(), NOW + 4000);
    assert_eq!(r2.access_token_expiry, NOW + 4000);
}

#[test]
fn session_within_margin_refreshes_once_then_persists_then_fetches() {
    // Margin 5 minutes, token expires in 2 minutes: the session demands a
    // refresh, then a persist, and only then permits the fetch.
    let s0 = ProviderSession::begin(provider("p1", NOW + 120), NOW, MARGIN);
    assert_eq!(s0.next_action(), SessionAction::Refresh);
    assert!(!s0.may_fetch());

    let mut s = s0;
    s.refresh_succeeded("access-2".to_string(), "refresh-2".to_string(), NOW + 3600);
    assert_eq!(s.next_action(), SessionAction::Persist);
    assert!(!s.may_fetch());

    s.persisted();
    assert_eq!(s.next_action(), SessionAction::Fetch);
    assert!(s.may_fetch());
    assert!(s.fetch_error().is_none());
    assert_eq!(s.access_secret().as_str(), "access-2");
}

#[test]
fn session_far_from_expiry_fetches_without_refresh() {
    let s = ProviderSession::begin(provider("p1", NOW + 100_000), NOW, MARGIN);
    assert_eq!(s.next_action(), SessionAction::Fetch);
    assert!(s.may_fetch());
    assert_eq!(s.access_secret().as_str(), "access-1");
}

#[test]
fn revoked_refresh_aborts_without_fetch() {
    // A revoked refresh token is terminal: the session never permits the
    // fetch and surfaces the revocation distinctly.
    let mut s = ProviderSession::begin(provider("p1", NOW + 120), NOW, MARGIN);
    assert_eq!(s.next_action(), SessionAction::Refresh);
    s.refresh_failed(SyncError::Auth(AuthError::RefreshRevoked));
    assert_eq!(s.next_action(), SessionAction::Abort);
    assert!(!s.may_fetch());
    assert_eq!(s.fetch_error(), Some(SyncError::Auth(AuthError::RefreshRevoked)));
}

#[test]
fn network_failure_during_refresh_aborts_with_its_error() {
    let mut s = ProviderSession::begin(provider("p1", NOW + 120), NOW, MARGIN);
    s.refresh_failed(SyncError::Network);
    assert_eq!(s.next_action(), SessionAction::Abort);
    assert_eq!(s.fetch_error(), Some(SyncError::Network));
}

#[test]
fn persist_failure_aborts_the_session() {
    let mut s = ProviderSession::begin(provider("p1", NOW + 120), NOW, MARGIN);
    s.refresh_succeeded("access-2".to_string(), "refresh-2".to_string(), NOW + 3600);
    s.persist_failed(SyncError::Network);
    assert_eq!(s.next_action(), SessionAction::Abort);
    assert!(!s.may_fetch());
}

#[test]
fn static_secret_never_refreshes() {
    let p = Provider {
        id: "direct".to_string(),
        kind: ProviderKind::DirectBank,
        credentials: Credentials::StaticSecret("api-key".to_string()),
    };
    let s = ProviderSession::begin(p, NOW, MARGIN);
    assert_eq!(s.next_action(), SessionAction::Fetch);
    assert_eq!(s.access_secret().as_str(), "api-key");
}

#[test]
fn authorization_grant_becomes_a_token() {
    let t = Token::from_authorization(
        "unknown".to_string(),
        "access-0".to_string(),
        "refresh-0".to_string(),
        NOW,
        3600,
    );
    assert_eq!(t.display_name, "unknown");
    assert_eq!(t.access_token, "access-0");
    assert_eq!(t.refresh_token, "refresh-0");
    assert_eq!(t.access_token_expiry, NOW + 3600);
}

#[test]
fn register_provider_appends_in_order() {
    let mut config = Config {
        providers: vec![provider("first", NOW + 50_000)],
        ledger_credential: LedgerCredential {
            access_token: "ledger-token".to_string(),
            budget_id: "budget-1".to_string(),
        },
    };
    config.register_provider(provider("second", NOW + 50_000));
    assert_eq!(config.providers.len(), 2);
    assert_eq!(config.providers[0].id, "first");
    assert_eq!(config.providers[1].id, "second");
    assert_eq!(config.ledger_credential.budget_id, "budget-1");
}

#[test]
fn begin_sessions_keeps_configuration_order() {
    let config = Config {
        providers: vec![provider("stale", NOW + 60), provider("fresh", NOW + 50_000)],
        ledger_credential: LedgerCredential {
            access_token: "ledger-token".to_string(),
            budget_id: "budget-1".to_string(),
        },
    };
    let sessions = begin_sessions(&config, NOW, MARGIN);
    assert_eq!(sessions.len(), 2);
    assert_eq!(sessions[0].provider.id, "stale");
    assert_eq!(sessions[0].next_action(), SessionAction::Refresh);
    assert_eq!(sessions[1].provider.id, "fresh");
    assert_eq!(sessions[1].next_action(), SessionAction::Fetch);
}
