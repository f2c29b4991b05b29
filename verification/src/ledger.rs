//! The budgeting ledger seen through its idempotency key.
//!
//! The ledger backend is the single source of truth for what has been
//! imported: an upsert keyed on `import_id` creates a transaction at most
//! once.  [`Ledger`] is that dedup semantics over plain values; the engine
//! runs against it, and the surrounding application replays each recorded
//! upsert against the remote backend.

use vstd::prelude::*;

verus! {

/// A transaction in the form the budgeting backend stores: the mapped image
/// of one external transaction, carrying its deterministic import id.
pub struct LedgerTransaction {
    /// Idempotency key; see [`crate::import_id::spec_import_id`].
    pub import_id: String,
    /// The external account the transaction belongs to.
    pub account_id: String,
    /// Amount in fixed-point minor units; negative for outflows.
    pub amount: i64,
    /// Seconds since the epoch.
    pub timestamp: u64,
    /// Free-text description from the provider.
    pub description: String,
}

/// Mathematical image of a [`LedgerTransaction`].
pub struct LedgerEntry {
    /// Idempotency key.
    pub import_id: Seq<char>,
    /// The external account the transaction belongs to.
    pub account_id: Seq<char>,
    /// Amount in minor units.
    pub amount: int,
    /// Seconds since the epoch.
    pub timestamp: int,
    /// Free-text description.
    pub description: Seq<char>,
}

impl View for LedgerTransaction {
    type V = LedgerEntry;

    open spec fn view(&self) -> LedgerEntry {
        LedgerEntry {
            import_id: self.import_id@,
            account_id: self.account_id@,
            amount: self.amount as int,
            timestamp: self.timestamp as int,
            description: self.description@,
        }
    }
}

impl Clone for LedgerTransaction {
    /// Field-for-field copy of the transaction.
    fn clone(&self) -> (r: Self)
        ensures
            r == *self,
    {
        LedgerTransaction {
            import_id: self.import_id.clone(),
            account_id: self.account_id.clone(),
            amount: self.amount,
            timestamp: self.timestamp,
            description: self.description.clone(),
        }
    }
}

/// Whether some entry of `l` already carries the import id `id`.
pub open spec fn contains_id(l: Seq<LedgerEntry>, id: Seq<char>) -> bool {
    exists|i: int| 0 <= i < l.len() && l[i].import_id == id
}

/// Outcome of an upsert keyed on `import_id`.
#[derive(Clone, Copy, Debug, PartialEq, Eq, Structural)]
pub enum UpsertOutcome {
    /// No entry carried the import id; one was created.
    Created,
    /// An entry already carried the import id; the upsert was a no-op.
    AlreadyExists,
}

/// The ledger's transaction store, keyed on import id.
pub struct Ledger {
    /// Stored transactions, in creation order.
    pub entries: Vec<LedgerTransaction>,
}

impl View for Ledger {
    type V = Seq<LedgerEntry>;

    open spec fn view(&self) -> Seq<LedgerEntry> {
        self.entries@.map_values(|t: LedgerTransaction| t@)
    }
}

impl Ledger {
    /// An empty ledger.
    pub fn new() -> (l: Ledger)
        ensures
            l@ =~= Seq::<LedgerEntry>::empty(),
    {
        Ledger { entries: Vec::new() }
    }

    /// How many transactions the ledger holds.
    pub fn len(&self) -> (n: usize)
        ensures
            n == self@.len(),
    {
        self.entries.len()
    }

    /// Whether the ledger already holds a transaction with import id `id`.
    pub fn contains_import_id(&self, id: &String) -> (r: bool)
        ensures
            r == contains_id(self@, id@),
    {
        let n: usize = self.entries.len();
        let mut i: usize = 0;
        while i < n
            invariant
                n == self.entries@.len(),
                i <= n,
                forall|j: int| 0 <= j < i ==> self@[j].import_id != id@,
            decreases n - i,
        {
            proof {
                assert(self@[i as int] == self.entries@[i as int]@);
            }
            if self.entries[i].import_id == *id {
                assert(self@[i as int].import_id == id@);
                return true;
            }
            i = i + 1;
        }
        false
    }

    /// Upsert keyed on `import_id`: a no-op if the ledger already holds a
    /// transaction with `tx`'s import id, a plain append otherwise.
    pub fn upsert_transaction(&mut self, tx: LedgerTransaction) -> (o: UpsertOutcome)
        ensures
            o == UpsertOutcome::AlreadyExists <==> contains_id(old(self)@, tx@.import_id),
            o == UpsertOutcome::AlreadyExists ==> final(self)@ == old(self)@,
            o == UpsertOutcome::Created ==> final(self)@ =~= old(self)@.push(tx@),
    {
        if self.contains_import_id(&tx.import_id) {
            UpsertOutcome::AlreadyExists
        } else {
            let ghost pre = self.entries@;
            self.entries.push(tx);
            proof {
                assert(self.entries@ =~= pre.push(tx));
                assert(self@ =~= pre.map_values(|t: LedgerTransaction| t@).push(tx@));
            }
            UpsertOutcome::Created
        }
    }
}

} // verus!
