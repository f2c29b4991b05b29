//! The sync engine's laws, proved of the reconciliation fold.
//!
//! The two headline results:
//! - [`lemma_sync_pass_idempotent`]: a second pass over the same fetched
//!   data creates nothing — every account's `imported` count is zero and
//!   the ledger is unchanged.
//! - [`lemma_partial_failure_isolation`]: one provider's failure never
//!   touches another provider's report — a provider whose accounts were
//!   fetched gets a full, error-free result per account regardless of what
//!   happened elsewhere in the pass.

use vstd::prelude::*;

use crate::import_id::spec_import_id;
use crate::ledger::contains_id;
use crate::ledger::LedgerEntry;
use crate::sync::account_entries;
use crate::sync::account_result;
use crate::sync::provider_entries;
use crate::sync::provider_report;
use crate::sync::sync_accounts;
use crate::sync::sync_pass_spec;
use crate::sync::sync_txs;
use crate::sync::map_tx;
use crate::sync::AccountFetchView;
use crate::sync::ProviderFetchView;

verus! {

/// Every import id of one account fetch is already in the ledger `l`
/// (vacuous for an account whose transaction fetch failed).
pub open spec fn af_ids_present(p: Seq<char>, af: AccountFetchView, l: Seq<LedgerEntry>) -> bool {
    af.transactions is Ok ==> forall|k: int|
        0 <= k < af.transactions->Ok_0.len() ==> #[trigger] contains_id(
            l,
            spec_import_id(p, af.transactions->Ok_0[k].external_id),
        )
}

/// Every import id of one provider fetch is already in the ledger `l`
/// (vacuous for a provider whose account listing failed).
pub open spec fn pf_ids_present(pf: ProviderFetchView, l: Seq<LedgerEntry>) -> bool {
    pf.accounts is Ok ==> forall|j: int|
        0 <= j < pf.accounts->Ok_0.len() ==> #[trigger] af_ids_present(
            pf.provider_id,
            pf.accounts->Ok_0[j],
            l,
        )
}

/// Appending an entry keeps every id already present, and makes the
/// appended entry's id present.
proof fn lemma_contains_push(l: Seq<LedgerEntry>, e: LedgerEntry, id: Seq<char>)
    ensures
        contains_id(l, id) ==> contains_id(l.push(e), id),
        contains_id(l.push(e), e.import_id),
{
    if contains_id(l, id) {
        let i = choose|i: int| 0 <= i < l.len() && l[i].import_id == id;
        assert(l.push(e)[i] == l[i]);
    }
    assert(l.push(e)[l.len() as int] == e);
}

/// Reconciling one account classifies every transaction exactly once:
/// the imported and skipped counts sum to the number fetched.
pub proof fn lemma_sync_txs_counts(
    p: Seq<char>,
    txs: Seq<crate::sync::ExternalTransactionView>,
    l: Seq<LedgerEntry>,
)
    ensures
        sync_txs(p, txs, l).imported >= 0,
        sync_txs(p, txs, l).skipped >= 0,
        sync_txs(p, txs, l).imported + sync_txs(p, txs, l).skipped == txs.len(),
    decreases txs.len(),
{
    if txs.len() > 0 {
        lemma_sync_txs_counts(p, txs.drop_last(), l);
    }
}

/// Reconciliation only adds entries: an id present before one account's
/// transactions are folded in is present after.
proof fn lemma_sync_txs_preserves(
    p: Seq<char>,
    txs: Seq<crate::sync::ExternalTransactionView>,
    l: Seq<LedgerEntry>,
    id: Seq<char>,
)
    requires
        contains_id(l, id),
    ensures
        contains_id(sync_txs(p, txs, l).entries, id),
    decreases txs.len(),
{
    if txs.len() > 0 {
        lemma_sync_txs_preserves(p, txs.drop_last(), l, id);
        let prev = sync_txs(p, txs.drop_last(), l);
        let e = map_tx(p, txs.last());
        lemma_contains_push(prev.entries, e, id);
    }
}

/// After one account's transactions are folded in, every one of their
/// import ids is in the ledger.
proof fn lemma_sync_txs_all_present(
    p: Seq<char>,
    txs: Seq<crate::sync::ExternalTransactionView>,
    l: Seq<LedgerEntry>,
)
    ensures
        forall|k: int|
            0 <= k < txs.len() ==> #[trigger] contains_id(
                sync_txs(p, txs, l).entries,
                spec_import_id(p, txs[k].external_id),
            ),
    decreases txs.len(),
{
    if txs.len() > 0 {
        lemma_sync_txs_all_present(p, txs.drop_last(), l);
        let prev = sync_txs(p, txs.drop_last(), l);
        let e = map_tx(p, txs.last());
        let f = sync_txs(p, txs, l);
        assert forall|k: int| 0 <= k < txs.len() implies #[trigger] contains_id(
            f.entries,
            spec_import_id(p, txs[k].external_id),
        ) by {
            if k < txs.len() - 1 {
                assert(txs.drop_last()[k] == txs[k]);
                assert(contains_id(prev.entries, spec_import_id(p, txs[k].external_id)));
                lemma_contains_push(prev.entries, e, spec_import_id(p, txs[k].external_id));
            } else {
                assert(txs[k] == txs.last());
                lemma_contains_push(prev.entries, e, e.import_id);
            }
        }
    }
}

/// If every import id of the transactions is already in the ledger, the
/// fold changes nothing: zero imported, everything skipped.
proof fn lemma_sync_txs_stable(
    p: Seq<char>,
    txs: Seq<crate::sync::ExternalTransactionView>,
    l: Seq<LedgerEntry>,
)
    requires
        forall|k: int|
            0 <= k < txs.len() ==> #[trigger] contains_id(
                l,
                spec_import_id(p, txs[k].external_id),
            ),
    ensures
        sync_txs(p, txs, l).entries == l,
        sync_txs(p, txs, l).imported == 0,
        sync_txs(p, txs, l).skipped == txs.len(),
    decreases txs.len(),
{
    if txs.len() > 0 {
        assert forall|k: int| 0 <= k < txs.drop_last().len() implies #[trigger] contains_id(
            l,
            spec_import_id(p, txs.drop_last()[k].external_id),
        ) by {
            assert(txs.drop_last()[k] == txs[k]);
        }
        lemma_sync_txs_stable(p, txs.drop_last(), l);
        assert(txs[txs.len() - 1] == txs.last());
        assert(contains_id(l, spec_import_id(p, txs.last().external_id)));
    }
}

/// Folding in one account fetch preserves every id already present.
proof fn lemma_account_entries_preserves(
    p: Seq<char>,
    af: AccountFetchView,
    l: Seq<LedgerEntry>,
    id: Seq<char>,
)
    requires
        contains_id(l, id),
    ensures
        contains_id(account_entries(p, af, l), id),
{
    match af.transactions {
        Ok(txs) => lemma_sync_txs_preserves(p, txs, l, id),
        Err(_) => (),
    }
}

/// After one account fetch is folded in, all its ids are present.
proof fn lemma_account_all_present(p: Seq<char>, af: AccountFetchView, l: Seq<LedgerEntry>)
    ensures
        af_ids_present(p, af, account_entries(p, af, l)),
{
    match af.transactions {
        Ok(txs) => lemma_sync_txs_all_present(p, txs, l),
        Err(_) => (),
    }
}

/// An account fetch whose ids are all present changes nothing and imports
/// nothing.
proof fn lemma_account_stable(p: Seq<char>, af: AccountFetchView, l: Seq<LedgerEntry>)
    requires
        af_ids_present(p, af, l),
    ensures
        account_entries(p, af, l) == l,
        account_result(p, af, l).imported == 0,
{
    match af.transactions {
        Ok(txs) => lemma_sync_txs_stable(p, txs, l),
        Err(_) => (),
    }
}

/// Folding in one provider's accounts preserves every id already present.
proof fn lemma_accounts_preserves(
    p: Seq<char>,
    afs: Seq<AccountFetchView>,
    l: Seq<LedgerEntry>,
    id: Seq<char>,
)
    requires
        contains_id(l, id),
    ensures
        contains_id(sync_accounts(p, afs, l).entries, id),
    decreases afs.len(),
{
    if afs.len() > 0 {
        lemma_accounts_preserves(p, afs.drop_last(), l, id);
        lemma_account_entries_preserves(p, afs.last(), sync_accounts(p, afs.drop_last(), l).entries, id);
    }
}

/// After one provider's accounts are folded in, every account's ids are
/// present.
proof fn lemma_accounts_all_present(p: Seq<char>, afs: Seq<AccountFetchView>, l: Seq<LedgerEntry>)
    ensures
        forall|j: int|
            0 <= j < afs.len() ==> #[trigger] af_ids_present(
                p,
                afs[j],
                sync_accounts(p, afs, l).entries,
            ),
    decreases afs.len(),
{
    if afs.len() > 0 {
        lemma_accounts_all_present(p, afs.drop_last(), l);
        let prev = sync_accounts(p, afs.drop_last(), l);
        let f = sync_accounts(p, afs, l);
        assert forall|j: int| 0 <= j < afs.len() implies #[trigger] af_ids_present(
            p,
            afs[j],
            f.entries,
        ) by {
            if j < afs.len() - 1 {
                assert(afs.drop_last()[j] == afs[j]);
                assert(af_ids_present(p, afs[j], prev.entries));
                if afs[j].transactions is Ok {
                    let txs = afs[j].transactions->Ok_0;
                    assert forall|k: int| 0 <= k < txs.len() implies #[trigger] contains_id(
                        f.entries,
                        spec_import_id(p, txs[k].external_id),
                    ) by {
                        assert(contains_id(prev.entries, spec_import_id(p, txs[k].external_id)));
                        lemma_account_entries_preserves(
                            p,
                            afs.last(),
                            prev.entries,
                            spec_import_id(p, txs[k].external_id),
                        );
                    }
                }
            } else {
                assert(afs[j] == afs.last());
                lemma_account_all_present(p, afs.last(), prev.entries);
            }
        }
    }
}

/// A provider all of whose ids are present changes nothing; every account
/// reports zero imported.
proof fn lemma_accounts_stable(p: Seq<char>, afs: Seq<AccountFetchView>, l: Seq<LedgerEntry>)
    requires
        forall|j: int| 0 <= j < afs.len() ==> #[trigger] af_ids_present(p, afs[j], l),
    ensures
        sync_accounts(p, afs, l).entries == l,
        sync_accounts(p, afs, l).results.len() == afs.len(),
        forall|j: int|
            0 <= j < afs.len() ==> #[trigger] sync_accounts(p, afs, l).results[j].imported == 0,
    decreases afs.len(),
{
    if afs.len() > 0 {
        assert forall|j: int| 0 <= j < afs.drop_last().len() implies #[trigger] af_ids_present(
            p,
            afs.drop_last()[j],
            l,
        ) by {
            assert(afs.drop_last()[j] == afs[j]);
        }
        lemma_accounts_stable(p, afs.drop_last(), l);
        assert(afs[afs.len() - 1] == afs.last());
        assert(af_ids_present(p, afs.last(), l));
        lemma_account_stable(p, afs.last(), l);
    }
}

/// Folding in one whole provider fetch preserves every id already present.
proof fn lemma_provider_entries_preserves(pf: ProviderFetchView, l: Seq<LedgerEntry>, id: Seq<char>)
    requires
        contains_id(l, id),
    ensures
        contains_id(provider_entries(pf, l), id),
{
    match pf.accounts {
        Ok(afs) => lemma_accounts_preserves(pf.provider_id, afs, l, id),
        Err(_) => (),
    }
}

/// After one provider fetch is folded in, all its ids are present.
proof fn lemma_provider_all_present(pf: ProviderFetchView, l: Seq<LedgerEntry>)
    ensures
        pf_ids_present(pf, provider_entries(pf, l)),
{
    match pf.accounts {
        Ok(afs) => lemma_accounts_all_present(pf.provider_id, afs, l),
        Err(_) => (),
    }
}

/// A provider fetch all of whose ids are present changes nothing; its
/// report's accounts all report zero imported.
proof fn lemma_provider_stable(pf: ProviderFetchView, l: Seq<LedgerEntry>)
    requires
        pf_ids_present(pf, l),
    ensures
        provider_entries(pf, l) == l,
        forall|j: int|
            0 <= j < provider_report(pf, l).results.len() ==> #[trigger] provider_report(
                pf,
                l,
            ).results[j].imported == 0,
{
    match pf.accounts {
        Ok(afs) => {
            lemma_accounts_stable(pf.provider_id, afs, l);
        },
        Err(_) => (),
    }
}

/// A whole pass preserves every id already present.
proof fn lemma_pass_preserves(pfs: Seq<ProviderFetchView>, l: Seq<LedgerEntry>, id: Seq<char>)
    requires
        contains_id(l, id),
    ensures
        contains_id(sync_pass_spec(pfs, l).entries, id),
    decreases pfs.len(),
{
    if pfs.len() > 0 {
        lemma_pass_preserves(pfs.drop_last(), l, id);
        lemma_provider_entries_preserves(pfs.last(), sync_pass_spec(pfs.drop_last(), l).entries, id);
    }
}

/// After a whole pass, every id of every successfully fetched account of
/// every provider is in the ledger.
pub proof fn lemma_pass_all_present(pfs: Seq<ProviderFetchView>, l: Seq<LedgerEntry>)
    ensures
        forall|i: int|
            0 <= i < pfs.len() ==> #[trigger] pf_ids_present(pfs[i], sync_pass_spec(pfs, l).entries),
    decreases pfs.len(),
{
    if pfs.len() > 0 {
        lemma_pass_all_present(pfs.drop_last(), l);
        let prev = sync_pass_spec(pfs.drop_last(), l);
        let f = sync_pass_spec(pfs, l);
        assert forall|i: int| 0 <= i < pfs.len() implies #[trigger] pf_ids_present(
            pfs[i],
            f.entries,
        ) by {
            if i < pfs.len() - 1 {
                assert(pfs.drop_last()[i] == pfs[i]);
                assert(pf_ids_present(pfs[i], prev.entries));
                if pfs[i].accounts is Ok {
                    let afs = pfs[i].accounts->Ok_0;
                    assert forall|j: int| 0 <= j < afs.len() implies #[trigger] af_ids_present(
                        pfs[i].provider_id,
                        afs[j],
                        f.entries,
                    ) by {
                        assert(af_ids_present(pfs[i].provider_id, afs[j], prev.entries));
                        if afs[j].transactions is Ok {
                            let txs = afs[j].transactions->Ok_0;
                            assert forall|k: int| 0 <= k < txs.len() implies #[trigger] contains_id(
                                f.entries,
                                spec_import_id(pfs[i].provider_id, txs[k].external_id),
                            ) by {
                                assert(contains_id(
                                    prev.entries,
                                    spec_import_id(pfs[i].provider_id, txs[k].external_id),
                                ));
                                lemma_provider_entries_preserves(
                                    pfs.last(),
                                    prev.entries,
                                    spec_import_id(pfs[i].provider_id, txs[k].external_id),
                                );
                            }
                        }
                    }
                }
            } else {
                assert(pfs[i] == pfs.last());
                lemma_provider_all_present(pfs.last(), prev.entries);
            }
        }
    }
}

/// A pass over fetched data whose ids are all present changes nothing and
/// imports nothing anywhere.
pub proof fn lemma_pass_stable(pfs: Seq<ProviderFetchView>, l: Seq<LedgerEntry>)
    requires
        forall|i: int| 0 <= i < pfs.len() ==> #[trigger] pf_ids_present(pfs[i], l),
    ensures
        sync_pass_spec(pfs, l).entries == l,
        sync_pass_spec(pfs, l).reports.len() == pfs.len(),
        forall|i: int, j: int|
            0 <= i < pfs.len() && 0 <= j < sync_pass_spec(pfs, l).reports[i].results.len()
                ==> #[trigger] sync_pass_spec(pfs, l).reports[i].results[j].imported == 0,
    decreases pfs.len(),
{
    if pfs.len() > 0 {
        assert forall|i: int| 0 <= i < pfs.drop_last().len() implies #[trigger] pf_ids_present(
            pfs.drop_last()[i],
            l,
        ) by {
            assert(pfs.drop_last()[i] == pfs[i]);
        }
        lemma_pass_stable(pfs.drop_last(), l);
        assert(pfs[pfs.len() - 1] == pfs.last());
        assert(pf_ids_present(pfs.last(), l));
        lemma_provider_stable(pfs.last(), l);
        let prev = sync_pass_spec(pfs.drop_last(), l);
        let f = sync_pass_spec(pfs, l);
        assert forall|i: int, j: int|
            0 <= i < pfs.len() && 0 <= j < f.reports[i].results.len() implies #[trigger] f.reports[i].results[j].imported
            == 0 by {
            if i < pfs.len() - 1 {
                assert(f.reports[i] == prev.reports[i]);
            } else {
                assert(f.reports[i] == provider_report(pfs.last(), prev.entries));
                assert(prev.entries == l);
            }
        }
    }
}

/// Idempotency of the sync pass: running it a second time over the same
/// fetched data yields zero newly created ledger entries — `imported` is
/// zero for every account of every provider — and leaves the ledger
/// exactly as the first pass left it.
pub proof fn lemma_sync_pass_idempotent(pfs: Seq<ProviderFetchView>, l: Seq<LedgerEntry>)
    ensures
        ({
            let first = sync_pass_spec(pfs, l);
            let second = sync_pass_spec(pfs, first.entries);
            &&& second.entries == first.entries
            &&& second.reports.len() == pfs.len()
            &&& forall|i: int, j: int|
                0 <= i < pfs.len() && 0 <= j < second.reports[i].results.len()
                    ==> #[trigger] second.reports[i].results[j].imported == 0
        }),
{
    let first = sync_pass_spec(pfs, l);
    lemma_pass_all_present(pfs, l);
    lemma_pass_stable(pfs, first.entries);
}

/// A pass produces one report per provider, whatever failed.
pub proof fn lemma_pass_len(pfs: Seq<ProviderFetchView>, l: Seq<LedgerEntry>)
    ensures
        sync_pass_spec(pfs, l).reports.len() == pfs.len(),
    decreases pfs.len(),
{
    if pfs.len() > 0 {
        lemma_pass_len(pfs.drop_last(), l);
    }
}

/// Shape of one provider's results: one per account, in order, carrying
/// the account's id; error-free accounts classify every fetched
/// transaction, failed accounts carry their error.
proof fn lemma_accounts_shape(p: Seq<char>, afs: Seq<AccountFetchView>, l: Seq<LedgerEntry>)
    ensures
        sync_accounts(p, afs, l).results.len() == afs.len(),
        forall|j: int|
            0 <= j < afs.len() ==> (#[trigger] sync_accounts(p, afs, l).results[j]).account_id
                == afs[j].account_id,
        forall|j: int|
            0 <= j < afs.len() && afs[j].transactions is Ok
                ==> (#[trigger] sync_accounts(p, afs, l).results[j]).error is None
                && sync_accounts(p, afs, l).results[j].imported + sync_accounts(
                p,
                afs,
                l,
            ).results[j].skipped == afs[j].transactions->Ok_0.len(),
        forall|j: int|
            0 <= j < afs.len() && afs[j].transactions is Err
                ==> (#[trigger] sync_accounts(p, afs, l).results[j]).error == Some(
                afs[j].transactions->Err_0,
            ) && sync_accounts(p, afs, l).results[j].imported == 0 && sync_accounts(
                p,
                afs,
                l,
            ).results[j].skipped == 0,
    decreases afs.len(),
{
    if afs.len() > 0 {
        lemma_accounts_shape(p, afs.drop_last(), l);
        let prev = sync_accounts(p, afs.drop_last(), l);
        assert(afs[afs.len() - 1] == afs.last());
        match afs.last().transactions {
            Ok(txs) => lemma_sync_txs_counts(p, txs, prev.entries),
            Err(_) => (),
        }
        assert forall|j: int| 0 <= j < afs.drop_last().len() implies afs.drop_last()[j] == afs[j] by {}
    }
}

/// Partial-failure isolation: whatever happened to the other providers in
/// the pass, a provider whose account listing succeeded gets a full report
/// — no provider-level error, one result per account in order, and every
/// account whose transaction fetch succeeded gets an error-free result
/// classifying each of its transactions.
pub proof fn lemma_partial_failure_isolation(
    pfs: Seq<ProviderFetchView>,
    l: Seq<LedgerEntry>,
    i: int,
)
    requires
        0 <= i < pfs.len(),
        pfs[i].accounts is Ok,
    ensures
        ({
            let f = sync_pass_spec(pfs, l);
            let afs = pfs[i].accounts->Ok_0;
            let report = f.reports[i];
            &&& f.reports.len() == pfs.len()
            &&& report.provider_id == pfs[i].provider_id
            &&& report.error is None
            &&& report.results.len() == afs.len()
            &&& forall|j: int|
                0 <= j < afs.len() && afs[j].transactions is Ok
                    ==> (#[trigger] report.results[j]).error is None
                    && report.results[j].imported + report.results[j].skipped
                    == afs[j].transactions->Ok_0.len()
            &&& forall|j: int|
                0 <= j < afs.len() && afs[j].transactions is Err
                    ==> (#[trigger] report.results[j]).error == Some(afs[j].transactions->Err_0)
        }),
    decreases pfs.len(),
{
    lemma_pass_len(pfs, l);
    let prev = sync_pass_spec(pfs.drop_last(), l);
    lemma_pass_len(pfs.drop_last(), l);
    if i == pfs.len() - 1 {
        assert(pfs[i] == pfs.last());
        let afs = pfs[i].accounts->Ok_0;
        lemma_accounts_shape(pfs[i].provider_id, afs, prev.entries);
    } else {
        assert(pfs.drop_last()[i] == pfs[i]);
        lemma_partial_failure_isolation(pfs.drop_last(), l, i);
        assert(sync_pass_spec(pfs, l).reports[i] == prev.reports[i]);
    }
}

} // verus!
