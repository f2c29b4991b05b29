use sync_ynab::import_id::compute_import_id;
use sync_ynab::ledger::Ledger;
use sync_ynab::ledger::UpsertOutcome;
use sync_ynab::provider::Account;
use sync_ynab::sync::any_failure;
use sync_ynab::sync::map_transaction;
use sync_ynab::sync::sync_account;
use sync_ynab::sync::sync_pass;
use sync_ynab::sync::AccountFetch;
use sync_ynab::sync::ExternalTransaction;
use sync_ynab::sync::ProviderFetch;
use sync_ynab::errors::SyncError;

fn tx(external_id: &str, account_id: &str, amount: i64) -> ExternalTransaction {
    ExternalTransaction {
        external_id: external_id.to_string(),
        account_id: account_id.to_string(),
        amount,
        timestamp: 1_700_000_000,
        description: "coffee".to_string(),
    }
}

fn account(id: &str) -> Account {
    Account { id: id.to_string(), display_name: format!("account {}", id) }
}

#[test]
fn import_id_exact_value() {
    let id = compute_import_id("revolut-main", "t1");
    assert_eq!(id, "f847a67e04661c8b");
}

#[test]
fn import_id_deterministic_across_computations() {
    let a = compute_import_id("p1", "tx-42");
    let b = compute_import_id("p1", "tx-42");
    assert_eq!(a, b);
    assert_eq!(a.len(), 16);
}

#[test]
fn import_id_distinguishes_providers() {
    let a = compute_import_id("provider-a", "t1");
    let b = compute_import_id("provider-b", "t1");
    assert_ne!(a, b);
}

#[test]
fn map_transaction_carries_fields_and_import_id() {
    let t = tx("x", "a1", -500);
    let l = map_transaction(&"p".to_string(), &t);
    assert_eq!(l.import_id, "78bb6e1957434815");
    assert_eq!(l.account_id, "a1");
    assert_eq!(l.amount, -500);
    assert_eq!(l.timestamp, 1_700_000_000);
    assert_eq!(l.description, "coffee");
}

#[test]
fn upsert_creates_then_skips() {
    let mut ledger = Ledger::new();
    let t = tx("t1", "a1", -500);
    let l1 = map_transaction(&"p".to_string(), &t);
    let l2 = map_transaction(&"p".to_string(), &t);
    assert_eq!(ledger.upsert_transaction(l1), UpsertOutcome::Created);
    assert_eq!(ledger.upsert_transaction(l2), UpsertOutcome::AlreadyExists);
    assert_eq!(ledger.len(), 1);
}

#[test]
fn sync_account_imports_then_skips() {
    // A provider returns account a1 with one transaction t1; the first run
    // imports it, the second run skips it.
    let provider_id = "revolut-main".to_string();
    let acc = account("a1");
    let txs = vec![tx("t1", "a1", -500)];
    let mut ledger = Ledger::new();

    let run1 = sync_account(&provider_id, &acc, &txs, &mut ledger);
    assert_eq!(run1.account_id, "a1");
    assert_eq!(run1.imported_count, 1);
    assert_eq!(run1.skipped_count, 0);
    assert!(run1.error.is_none());

    let run2 = sync_account(&provider_id, &acc, &txs, &mut ledger);
    assert_eq!(run2.imported_count, 0);
    assert_eq!(run2.skipped_count, 1);
    assert!(run2.error.is_none());
    assert_eq!(ledger.len(), 1);
}

#[test]
fn sync_account_dedups_within_one_fetch() {
    let provider_id = "p".to_string();
    let acc = account("a1");
    let txs = vec![tx("t1", "a1", -500), tx("t1", "a1", -500), tx("t2", "a1", 100)];
    let mut ledger = Ledger::new();
    let r = sync_account(&provider_id, &acc, &txs, &mut ledger);
    assert_eq!(r.imported_count, 2);
    assert_eq!(r.skipped_count, 1);
    assert_eq!(ledger.len(), 2);
}

fn two_provider_fetches() -> Vec<ProviderFetch> {
    vec![
        ProviderFetch {
            provider_id: "bank-a".to_string(),
            accounts: Ok(vec![AccountFetch {
                account: account("a1"),
                transactions: Ok(vec![tx("t1", "a1", -500), tx("t2", "a1", 250)]),
            }]),
        },
        ProviderFetch {
            provider_id: "bank-b".to_string(),
            accounts: Ok(vec![
                AccountFetch {
                    account: account("b1"),
                    transactions: Ok(vec![tx("t1", "b1", -75)]),
                },
                AccountFetch { account: account("b2"), transactions: Ok(vec![]) },
            ]),
        },
    ]
}

#[test]
fn sync_pass_is_idempotent() {
    // Running the pass twice over the same fetched data imports nothing the
    // second time and leaves the ledger unchanged.
    let fetches = two_provider_fetches();
    let mut ledger = Ledger::new();

    let first = sync_pass(&fetches, &mut ledger);
    assert_eq!(first.len(), 2);
    assert_eq!(first[0].results[0].imported_count, 2);
    assert_eq!(first[1].results[0].imported_count, 1);
    assert_eq!(first[1].results[1].imported_count, 0);
    let len_after_first = ledger.len();
    assert_eq!(len_after_first, 3);

    let second = sync_pass(&fetches, &mut ledger);
    assert_eq!(ledger.len(), len_after_first);
    for report in &second {
        for result in &report.results {
            assert_eq!(result.imported_count, 0);
        }
    }
    assert_eq!(second[0].results[0].skipped_count, 2);
    assert_eq!(second[1].results[0].skipped_count, 1);
}

#[test]
fn failure_on_one_provider_is_isolated() {
    // Provider A's transaction fetch fails and provider C's account listing
    // fails; provider B still gets full, error-free results and the pass
    // reports every provider.
    let fetches = vec![
        ProviderFetch {
            provider_id: "bank-a".to_string(),
            accounts: Ok(vec![AccountFetch {
                account: account("a1"),
                transactions: Err(SyncError::Network),
            }]),
        },
        ProviderFetch {
            provider_id: "bank-b".to_string(),
            accounts: Ok(vec![AccountFetch {
                account: account("b1"),
                transactions: Ok(vec![tx("t1", "b1", -75), tx("t2", "b1", 30)]),
            }]),
        },
        ProviderFetch {
            provider_id: "bank-c".to_string(),
            accounts: Err(SyncError::RateLimit(120)),
        },
    ];
    let mut ledger = Ledger::new();
    let reports = sync_pass(&fetches, &mut ledger);

    assert_eq!(reports.len(), 3);
    assert!(reports[0].error.is_none());
    assert_eq!(reports[0].results.len(), 1);
    assert_eq!(reports[0].results[0].error, Some(SyncError::Network));
    assert_eq!(reports[0].results[0].imported_count, 0);

    assert!(reports[1].error.is_none());
    assert_eq!(reports[1].results.len(), 1);
    assert!(reports[1].results[0].error.is_none());
    assert_eq!(reports[1].results[0].imported_count, 2);
    assert_eq!(reports[1].results[0].skipped_count, 0);

    assert_eq!(reports[2].error, Some(SyncError::RateLimit(120)));
    assert!(reports[2].results.is_empty());

    // Only provider B's transactions landed in the ledger.
    assert_eq!(ledger.len(), 2);
}

#[test]
fn any_failure_reflects_reports() {
    let mut ledger = Ledger::new();
    let ok_reports = sync_pass(&two_provider_fetches(), &mut ledger);
    assert!(!any_failure(&ok_reports));

    let failing = vec![ProviderFetch {
        provider_id: "bank-a".to_string(),
        accounts: Ok(vec![AccountFetch {
            account: account("a1"),
            transactions: Err(SyncError::Provider),
        }]),
    }];
    let bad_reports = sync_pass(&failing, &mut ledger);
    assert!(any_failure(&bad_reports));
}
