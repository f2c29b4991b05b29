//! The sync engine: reconciling fetched transactions into the ledger.
//!
//! A sync pass walks the providers in configuration order and, for each
//! account a provider returned, maps every fetched transaction to a ledger
//! transaction keyed by its deterministic import id and upserts it.  The
//! ledger's dedup on the import id makes the pass idempotent, and a failure
//! on one account or provider never aborts the rest of the pass: it is
//! recorded in that account's result and the walk continues.
//!
//! The whole pass is specified by a fold ([`sync_pass_spec`]) over the
//! fetched data, and the executable pass is proved equal to it.  The
//! engine's laws — idempotency and partial-failure isolation — are proved
//! of the fold in [`crate::laws`].

use vstd::prelude::*;

use crate::errors::SyncError;
use crate::import_id::compute_import_id;
use crate::import_id::spec_import_id;
use crate::ledger::contains_id;
use crate::ledger::Ledger;
use crate::ledger::LedgerEntry;
use crate::ledger::LedgerTransaction;
use crate::ledger::UpsertOutcome;
use crate::provider::Account;

verus! {

/// A transaction as a provider reports it.  `external_id` is the natural
/// dedup key and is stable across repeated fetches of the same underlying
/// transaction.
pub struct ExternalTransaction {
    /// Provider-assigned stable id of the transaction.
    pub external_id: String,
    /// The account the transaction belongs to.
    pub account_id: String,
    /// Amount in fixed-point minor units; negative for outflows.
    pub amount: i64,
    /// Seconds since the epoch.
    pub timestamp: u64,
    /// Free-text description from the provider.
    pub description: String,
}

/// Mathematical image of an [`ExternalTransaction`].
pub struct ExternalTransactionView {
    /// Provider-assigned stable id.
    pub external_id: Seq<char>,
    /// The account the transaction belongs to.
    pub account_id: Seq<char>,
    /// Amount in minor units.
    pub amount: int,
    /// Seconds since the epoch.
    pub timestamp: int,
    /// Free-text description.
    pub description: Seq<char>,
}

impl View for ExternalTransaction {
    type V = ExternalTransactionView;

    open spec fn view(&self) -> ExternalTransactionView {
        ExternalTransactionView {
            external_id: self.external_id@,
            account_id: self.account_id@,
            amount: self.amount as int,
            timestamp: self.timestamp as int,
            description: self.description@,
        }
    }
}

/// Per-account outcome of one sync run; ephemeral, never persisted.
pub struct SyncResult {
    /// The account the result is about.
    pub account_id: String,
    /// Transactions newly created in the ledger.
    pub imported_count: usize,
    /// Transactions the ledger already held.
    pub skipped_count: usize,
    /// The failure that stopped this account, if any.
    pub error: Option<SyncError>,
}

/// Mathematical image of a [`SyncResult`].
pub struct SyncResultView {
    /// The account the result is about.
    pub account_id: Seq<char>,
    /// Transactions newly created in the ledger.
    pub imported: int,
    /// Transactions the ledger already held.
    pub skipped: int,
    /// The failure that stopped this account, if any.
    pub error: Option<SyncError>,
}

impl View for SyncResult {
    type V = SyncResultView;

    open spec fn view(&self) -> SyncResultView {
        SyncResultView {
            account_id: self.account_id@,
            imported: self.imported_count as int,
            skipped: self.skipped_count as int,
            error: self.error,
        }
    }
}

/// What `get_transactions` returned for one account: the transactions, or
/// the failure the fetch ended with.
pub struct AccountFetch {
    /// The account the fetch was for.
    pub account: Account,
    /// The fetched transactions, or the fetch failure.
    pub transactions: Result<Vec<ExternalTransaction>, SyncError>,
}

/// Mathematical image of an [`AccountFetch`].
pub struct AccountFetchView {
    /// Id of the account the fetch was for.
    pub account_id: Seq<char>,
    /// Display name of the account.
    pub display_name: Seq<char>,
    /// The fetched transactions, or the fetch failure.
    pub transactions: Result<Seq<ExternalTransactionView>, SyncError>,
}

/// The views of a sequence of external transactions.
pub open spec fn tx_views(s: Seq<ExternalTransaction>) -> Seq<ExternalTransactionView> {
    s.map_values(|t: ExternalTransaction| t@)
}

impl View for AccountFetch {
    type V = AccountFetchView;

    open spec fn view(&self) -> AccountFetchView {
        AccountFetchView {
            account_id: self.account.id@,
            display_name: self.account.display_name@,
            transactions: match self.transactions {
                Ok(txs) => Ok(tx_views(txs@)),
                Err(e) => Err(e),
            },
        }
    }
}

/// What one provider's fetch phase produced: the accounts it listed, each
/// with its transaction fetch outcome, or the `get_accounts` failure.
pub struct ProviderFetch {
    /// Stable id of the provider.
    pub provider_id: String,
    /// The fetched accounts, or the `get_accounts` failure.
    pub accounts: Result<Vec<AccountFetch>, SyncError>,
}

/// Mathematical image of a [`ProviderFetch`].
pub struct ProviderFetchView {
    /// Stable id of the provider.
    pub provider_id: Seq<char>,
    /// The fetched accounts, or the `get_accounts` failure.
    pub accounts: Result<Seq<AccountFetchView>, SyncError>,
}

/// The views of a sequence of account fetches.
pub open spec fn af_views(s: Seq<AccountFetch>) -> Seq<AccountFetchView> {
    s.map_values(|a: AccountFetch| a@)
}

impl View for ProviderFetch {
    type V = ProviderFetchView;

    open spec fn view(&self) -> ProviderFetchView {
        ProviderFetchView {
            provider_id: self.provider_id@,
            accounts: match self.accounts {
                Ok(afs) => Ok(af_views(afs@)),
                Err(e) => Err(e),
            },
        }
    }
}

/// Per-provider outcome of one sync run.
pub struct ProviderReport {
    /// Stable id of the provider.
    pub provider_id: String,
    /// The `get_accounts` failure, if the provider's accounts could not be
    /// listed at all.
    pub error: Option<SyncError>,
    /// One result per listed account, in the provider's order.
    pub results: Vec<SyncResult>,
}

/// Mathematical image of a [`ProviderReport`].
pub struct ProviderReportView {
    /// Stable id of the provider.
    pub provider_id: Seq<char>,
    /// The `get_accounts` failure, if any.
    pub error: Option<SyncError>,
    /// One result per listed account.
    pub results: Seq<SyncResultView>,
}

/// The views of a sequence of sync results.
pub open spec fn result_views(s: Seq<SyncResult>) -> Seq<SyncResultView> {
    s.map_values(|r: SyncResult| r@)
}

impl View for ProviderReport {
    type V = ProviderReportView;

    open spec fn view(&self) -> ProviderReportView {
        ProviderReportView {
            provider_id: self.provider_id@,
            error: self.error,
            results: result_views(self.results@),
        }
    }
}

/// The views of a sequence of provider fetches.
pub open spec fn pf_views(s: Seq<ProviderFetch>) -> Seq<ProviderFetchView> {
    s.map_values(|p: ProviderFetch| p@)
}

/// The views of a sequence of provider reports.
pub open spec fn report_views(s: Seq<ProviderReport>) -> Seq<ProviderReportView> {
    s.map_values(|r: ProviderReport| r@)
}

/// The ledger transaction an external transaction maps to: the fields carry
/// over, and the import id is the deterministic hash of the provider id and
/// the external id.
pub open spec fn map_tx(provider_id: Seq<char>, t: ExternalTransactionView) -> LedgerEntry {
    LedgerEntry {
        import_id: spec_import_id(provider_id, t.external_id),
        account_id: t.account_id,
        amount: t.amount,
        timestamp: t.timestamp,
        description: t.description,
    }
}

/// State of the fold that reconciles one account's transactions.
pub struct TxFold {
    /// The ledger after the upserts so far.
    pub entries: Seq<LedgerEntry>,
    /// Upserts that created an entry.
    pub imported: int,
    /// Upserts the ledger ignored as duplicates.
    pub skipped: int,
}

/// Reconcile one account's fetched transactions into the ledger, in fetch
/// order: each transaction is mapped and upserted; a duplicate import id is
/// skipped, anything else is appended.
pub open spec fn sync_txs(
    provider_id: Seq<char>,
    txs: Seq<ExternalTransactionView>,
    l: Seq<LedgerEntry>,
) -> TxFold
    decreases txs.len(),
{
    if txs.len() == 0 {
        TxFold { entries: l, imported: 0, skipped: 0 }
    } else {
        let prev = sync_txs(provider_id, txs.drop_last(), l);
        let e = map_tx(provider_id, txs.last());
        if contains_id(prev.entries, e.import_id) {
            TxFold { entries: prev.entries, imported: prev.imported, skipped: prev.skipped + 1 }
        } else {
            TxFold {
                entries: prev.entries.push(e),
                imported: prev.imported + 1,
                skipped: prev.skipped,
            }
        }
    }
}

/// The sync result one account fetch produces against ledger `l`.
pub open spec fn account_result(
    provider_id: Seq<char>,
    af: AccountFetchView,
    l: Seq<LedgerEntry>,
) -> SyncResultView {
    match af.transactions {
        Ok(txs) => {
            let f = sync_txs(provider_id, txs, l);
            SyncResultView {
                account_id: af.account_id,
                imported: f.imported,
                skipped: f.skipped,
                error: None,
            }
        },
        Err(e) => SyncResultView { account_id: af.account_id, imported: 0, skipped: 0, error: Some(e) },
    }
}

/// The ledger after one account fetch is reconciled: unchanged if the
/// transaction fetch failed.
pub open spec fn account_entries(
    provider_id: Seq<char>,
    af: AccountFetchView,
    l: Seq<LedgerEntry>,
) -> Seq<LedgerEntry> {
    match af.transactions {
        Ok(txs) => sync_txs(provider_id, txs, l).entries,
        Err(e) => l,
    }
}

/// State of the fold that reconciles one provider's accounts.
pub struct ProviderFold {
    /// One result per account, in the provider's order.
    pub results: Seq<SyncResultView>,
    /// The ledger after the accounts so far.
    pub entries: Seq<LedgerEntry>,
}

/// Reconcile one provider's accounts in order.  A failed account records
/// its error and leaves the ledger unchanged; the fold continues either way.
pub open spec fn sync_accounts(
    provider_id: Seq<char>,
    afs: Seq<AccountFetchView>,
    l: Seq<LedgerEntry>,
) -> ProviderFold
    decreases afs.len(),
{
    if afs.len() == 0 {
        ProviderFold { results: Seq::empty(), entries: l }
    } else {
        let prev = sync_accounts(provider_id, afs.drop_last(), l);
        ProviderFold {
            results: prev.results.push(account_result(provider_id, afs.last(), prev.entries)),
            entries: account_entries(provider_id, afs.last(), prev.entries),
        }
    }
}

/// The report one provider fetch produces against ledger `l`.
pub open spec fn provider_report(pf: ProviderFetchView, l: Seq<LedgerEntry>) -> ProviderReportView {
    match pf.accounts {
        Ok(afs) => ProviderReportView {
            provider_id: pf.provider_id,
            error: None,
            results: sync_accounts(pf.provider_id, afs, l).results,
        },
        Err(e) => ProviderReportView { provider_id: pf.provider_id, error: Some(e), results: Seq::empty() },
    }
}

/// The ledger after one provider fetch is reconciled: unchanged if
/// `get_accounts` failed.
pub open spec fn provider_entries(pf: ProviderFetchView, l: Seq<LedgerEntry>) -> Seq<LedgerEntry> {
    match pf.accounts {
        Ok(afs) => sync_accounts(pf.provider_id, afs, l).entries,
        Err(e) => l,
    }
}

/// State of the fold that reconciles a whole pass.
pub struct PassFold {
    /// One report per provider, in configuration order.
    pub reports: Seq<ProviderReportView>,
    /// The ledger after the providers so far.
    pub entries: Seq<LedgerEntry>,
}

/// A whole sync pass: the providers in configuration order, each provider's
/// accounts in its order.  Failures stay local to their account or
/// provider; the pass always produces one report per provider.
pub open spec fn sync_pass_spec(pfs: Seq<ProviderFetchView>, l: Seq<LedgerEntry>) -> PassFold
    decreases pfs.len(),
{
    if pfs.len() == 0 {
        PassFold { reports: Seq::empty(), entries: l }
    } else {
        let prev = sync_pass_spec(pfs.drop_last(), l);
        PassFold {
            reports: prev.reports.push(provider_report(pfs.last(), prev.entries)),
            entries: provider_entries(pfs.last(), prev.entries),
        }
    }
}

/// Map one external transaction to the ledger transaction it imports as,
/// computing its deterministic import id.
pub fn map_transaction(provider_id: &String, t: &ExternalTransaction) -> (r: LedgerTransaction)
    ensures
        r@ == map_tx(provider_id@, t@),
{
    LedgerTransaction {
        import_id: compute_import_id(provider_id.as_str(), t.external_id.as_str()),
        account_id: t.account_id.clone(),
        amount: t.amount,
        timestamp: t.timestamp,
        description: t.description.clone(),
    }
}

/// Reconcile one account's fetched transactions into the ledger; returns
/// the account's sync result.  Equal to the fold [`sync_txs`].
pub fn sync_account(
    provider_id: &String,
    account: &Account,
    txs: &Vec<ExternalTransaction>,
    ledger: &mut Ledger,
) -> (r: SyncResult)
    ensures
        ({
            let f = sync_txs(provider_id@, tx_views(txs@), old(ledger)@);
            &&& final(ledger)@ == f.entries
            &&& r@.imported == f.imported
            &&& r@.skipped == f.skipped
            &&& r@.account_id == account.id@
            &&& r@.error is None
        }),
{
    let n: usize = txs.len();
    let mut imported: usize = 0;
    let mut skipped: usize = 0;
    let mut i: usize = 0;
    while i < n
        invariant
            n == txs@.len(),
            i <= n,
            imported + skipped == i,
            ({
                let f = sync_txs(provider_id@, tx_views(txs@).take(i as int), old(ledger)@);
                &&& ledger@ == f.entries
                &&& imported == f.imported
                &&& skipped == f.skipped
            }),
        decreases n - i,
    {
        let ltx = map_transaction(provider_id, &txs[i]);
        proof {
            let all = tx_views(txs@);
            assert(all.take(i + 1 as int).drop_last() =~= all.take(i as int));
            assert(all.take(i + 1 as int).last() == txs@[i as int]@);
        }
        match ledger.upsert_transaction(ltx) {
            UpsertOutcome::Created => {
                imported = imported + 1;
            },
            UpsertOutcome::AlreadyExists => {
                skipped = skipped + 1;
            },
        }
        i = i + 1;
    }
    proof {
        assert(tx_views(txs@).take(n as int) =~= tx_views(txs@));
    }
    SyncResult {
        account_id: account.id.clone(),
        imported_count: imported,
        skipped_count: skipped,
        error: None,
    }
}

/// Reconcile one provider's account fetches in order; a failed account
/// records its error and the walk continues.  Equal to the fold
/// [`sync_accounts`].
pub fn sync_provider(
    provider_id: &String,
    accounts: &Vec<AccountFetch>,
    ledger: &mut Ledger,
) -> (rs: Vec<SyncResult>)
    ensures
        ({
            let f = sync_accounts(provider_id@, af_views(accounts@), old(ledger)@);
            &&& final(ledger)@ == f.entries
            &&& result_views(rs@) == f.results
        }),
{
    let n: usize = accounts.len();
    let mut rs: Vec<SyncResult> = Vec::new();
    let mut i: usize = 0;
    while i < n
        invariant
            n == accounts@.len(),
            i <= n,
            ({
                let f = sync_accounts(provider_id@, af_views(accounts@).take(i as int), old(ledger)@);
                &&& ledger@ == f.entries
                &&& result_views(rs@) =~= f.results
            }),
        decreases n - i,
    {
        proof {
            let all = af_views(accounts@);
            assert(all.take(i + 1 as int).drop_last() =~= all.take(i as int));
            assert(all.take(i + 1 as int).last() == accounts@[i as int]@);
        }
        let ghost pre_results = result_views(rs@);
        let r: SyncResult = match &accounts[i].transactions {
            Ok(txs) => sync_account(provider_id, &accounts[i].account, txs, ledger),
            Err(e) => SyncResult {
                account_id: accounts[i].account.id.clone(),
                imported_count: 0,
                skipped_count: 0,
                error: Some(*e),
            },
        };
        rs.push(r);
        proof {
            assert(result_views(rs@) =~= pre_results.push(r@));
        }
        i = i + 1;
    }
    proof {
        assert(af_views(accounts@).take(n as int) =~= af_views(accounts@));
    }
    rs
}

/// Run a whole sync pass over the fetched data of every provider, in
/// configuration order.  Failures stay local: every provider gets a report
/// whatever happened to the others.  Equal to the fold [`sync_pass_spec`].
pub fn sync_pass(fetches: &Vec<ProviderFetch>, ledger: &mut Ledger) -> (reports: Vec<
    ProviderReport,
>)
    ensures
        ({
            let f = sync_pass_spec(pf_views(fetches@), old(ledger)@);
            &&& final(ledger)@ == f.entries
            &&& report_views(reports@) == f.reports
        }),
{
    let n: usize = fetches.len();
    let mut reports: Vec<ProviderReport> = Vec::new();
    let mut i: usize = 0;
    while i < n
        invariant
            n == fetches@.len(),
            i <= n,
            ({
                let f = sync_pass_spec(pf_views(fetches@).take(i as int), old(ledger)@);
                &&& ledger@ == f.entries
                &&& report_views(reports@) =~= f.reports
            }),
        decreases n - i,
    {
        proof {
            let all = pf_views(fetches@);
            assert(all.take(i + 1 as int).drop_last() =~= all.take(i as int));
            assert(all.take(i + 1 as int).last() == fetches@[i as int]@);
        }
        let ghost pre_reports = report_views(reports@);
        let ghost prev = sync_pass_spec(pf_views(fetches@).take(i as int), old(ledger)@);
        let ghost expected = provider_report(fetches@[i as int]@, prev.entries);
        let report: ProviderReport = match &fetches[i].accounts {
            Ok(afs) => {
                let rs = sync_provider(&fetches[i].provider_id, afs, ledger);
                let r = ProviderReport {
                    provider_id: fetches[i].provider_id.clone(),
                    error: None,
                    results: rs,
                };
                proof {
                    assert(r@.results == expected.results);
                    assert(r@ == expected);
                }
                r
            },
            Err(e) => {
                let r = ProviderReport {
                    provider_id: fetches[i].provider_id.clone(),
                    error: Some(*e),
                    results: Vec::new(),
                };
                proof {
                    assert(r@.results =~= expected.results);
                    assert(r@ == expected);
                }
                r
            },
        };
        reports.push(report);
        proof {
            assert(report_views(reports@) =~= pre_reports.push(expected));
        }
        i = i + 1;
    }
    proof {
        assert(pf_views(fetches@).take(n as int) =~= pf_views(fetches@));
    }
    reports
}

/// Whether a report carries any failure, on the provider itself or on one
/// of its accounts.
pub open spec fn report_has_failure(r: ProviderReportView) -> bool {
    ||| r.error is Some
    ||| exists|j: int| 0 <= j < r.results.len() && r.results[j].error is Some
}

/// Whether any provider or account of the pass failed; decides the non-zero
/// process exit of the surrounding application.
pub open spec fn spec_any_failure(rs: Seq<ProviderReportView>) -> bool {
    exists|i: int| 0 <= i < rs.len() && report_has_failure(rs[i])
}

/// Whether any failure is recorded in `reports`; see [`spec_any_failure`].
pub fn any_failure(reports: &Vec<ProviderReport>) -> (b: bool)
    ensures
        b == spec_any_failure(report_views(reports@)),
{
    let n: usize = reports.len();
    let mut i: usize = 0;
    while i < n
        invariant
            n == reports@.len(),
            i <= n,
            forall|k: int| 0 <= k < i ==> !report_has_failure(report_views(reports@)[k]),
        decreases n - i,
    {
        proof {
            assert(report_views(reports@)[i as int] == reports@[i as int]@);
        }
        if reports[i].error.is_some() {
            proof {
                assert(report_has_failure(report_views(reports@)[i as int]));
            }
            return true;
        }
        let m: usize = reports[i].results.len();
        let mut j: usize = 0;
        while j < m
            invariant
                0 <= i < n,
                n == reports@.len(),
                m == reports@[i as int].results@.len(),
                j <= m,
                forall|k: int| 0 <= k < j ==> reports@[i as int]@.results[k].error is None,
            decreases m - j,
        {
            proof {
                assert(reports@[i as int]@.results[j as int] == reports@[i as int].results@[j as int]@);
            }
            if reports[i].results[j].error.is_some() {
                proof {
                    assert(reports@[i as int]@.results[j as int].error is Some);
                    assert(report_has_failure(report_views(reports@)[i as int]));
                }
                return true;
            }
            j = j + 1;
        }
        proof {
            assert(!report_has_failure(reports@[i as int]@));
        }
        i = i + 1;
    }
    false
}

} // verus!
