use sync_ynab::cli::run;
use sync_ynab::cli::ConfigCommands;
use sync_ynab::cli::RevolutArgs;
use sync_ynab::cli::RunPlan;
use sync_ynab::cli::SyncArgs;
use sync_ynab::cli::SyncYnab;
use sync_ynab::cli::SyncYnabArgs;
use sync_ynab::cli::SyncYnabCommands;
use sync_ynab::cli::TruelayerArgs;
use sync_ynab::errors::backoff_delay;
use sync_ynab::errors::retry_decision;
use sync_ynab::errors::AuthError;
use sync_ynab::errors::RetryDecision;
use sync_ynab::errors::SyncError;

#[test]
fn backoff_is_exponential_and_capped() {
    assert_eq!(backoff_delay(0), 1);
    assert_eq!(backoff_delay(1), 2);
    assert_eq!(backoff_delay(2), 4);
    assert_eq!(backoff_delay(5), 32);
    assert_eq!(backoff_delay(6), 64);
    assert_eq!(backoff_delay(60), 64);
}

#[test]
fn revoked_refresh_is_never_retried() {
    let e = SyncError::Auth(AuthError::RefreshRevoked);
    assert_eq!(retry_decision(&e, 0, 5), RetryDecision::GiveUp);
    assert_eq!(retry_decision(&e, 3, 5), RetryDecision::GiveUp);
}

#[test]
fn unauthorized_triggers_one_refresh_and_retry() {
    let e = SyncError::Auth(AuthError::Unauthorized);
    assert_eq!(retry_decision(&e, 0, 5), RetryDecision::RefreshAndRetry);
    assert_eq!(retry_decision(&e, 1, 5), RetryDecision::GiveUp);
}

#[test]
fn network_errors_retry_with_backoff_then_surface() {
    let e = SyncError::Network;
    assert_eq!(retry_decision(&e, 0, 4), RetryDecision::RetryAfter(1));
    assert_eq!(retry_decision(&e, 1, 4), RetryDecision::RetryAfter(2));
    assert_eq!(retry_decision(&e, 2, 4), RetryDecision::RetryAfter(4));
    assert_eq!(retry_decision(&e, 3, 4), RetryDecision::GiveUp);
}

#[test]
fn rate_limit_retries_after_indicated_delay() {
    let e = SyncError::RateLimit(45);
    assert_eq!(retry_decision(&e, 0, 3), RetryDecision::RetryAfter(45));
    assert_eq!(retry_decision(&e, 2, 3), RetryDecision::GiveUp);
}

#[test]
fn provider_errors_surface_immediately() {
    assert_eq!(retry_decision(&SyncError::Provider, 0, 5), RetryDecision::GiveUp);
}

fn cli(command: SyncYnabCommands) -> SyncYnab {
    SyncYnab { args: SyncYnabArgs { config_directory: "secrets/".to_string() }, command }
}

#[test]
fn run_dispatches_sync() {
    match run(cli(SyncYnabCommands::Sync(SyncArgs {}))) {
        RunPlan::Sync { config_directory } => assert_eq!(config_directory, "secrets/"),
        _ => panic!("expected the sync plan"),
    }
}

#[test]
fn run_dispatches_config() {
    match run(cli(SyncYnabCommands::Config(ConfigCommands::AddTruelayer))) {
        RunPlan::Config { config_directory, command } => {
            assert_eq!(config_directory, "secrets/");
            assert_eq!(command, ConfigCommands::AddTruelayer);
        },
        _ => panic!("expected the config plan"),
    }
}

#[test]
fn run_dispatches_provider_diagnostics() {
    match run(cli(SyncYnabCommands::Revolut(RevolutArgs { display_name: "r".to_string() }))) {
        RunPlan::Revolut(a) => assert_eq!(a.display_name, "r"),
        _ => panic!("expected the direct-bank plan"),
    }
    match run(cli(SyncYnabCommands::Truelayer(TruelayerArgs { display_name: "t".to_string() }))) {
        RunPlan::Truelayer(a) => assert_eq!(a.display_name, "t"),
        _ => panic!("expected the open-banking plan"),
    }
}
