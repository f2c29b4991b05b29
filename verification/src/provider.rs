//! Providers and the configuration that materializes them.
//!
//! A provider is one connected external account relationship: a direct bank
//! API or an open-banking aggregator, together with the credential used to
//! talk to it.  Providers are created by interactive authorization, live in
//! the persisted configuration, and are destroyed only by explicit removal.

use vstd::prelude::*;

use crate::token::Token;

verus! {

/// The closed set of provider variants.  Adding a provider means adding one
/// variant plus its mapping functions; the sync engine never changes.
#[derive(Clone, Copy, Debug, PartialEq, Eq, Structural)]
pub enum ProviderKind {
    /// A bank exposing its own API directly.
    DirectBank,
    /// An open-banking aggregator fronting many banks.
    OpenBanking,
}

/// The credential a provider authenticates with.
pub enum Credentials {
    /// An OAuth session: refreshed whenever it nears expiry.
    Session(Token),
    /// A long-lived static secret: never refreshed.
    StaticSecret(String),
}

/// One connected external account relationship.
pub struct Provider {
    /// Stable identifier, the first half of every import id this provider
    /// contributes.
    pub id: String,
    /// Which variant of client talks to this provider.
    pub kind: ProviderKind,
    /// The credential used to authenticate.
    pub credentials: Credentials,
}

/// Credential for the budgeting ledger backend.  Long-lived and not
/// auto-refreshable: if it goes stale the user must reconfigure.
pub struct LedgerCredential {
    /// Access token for the ledger API.
    pub access_token: String,
    /// The budget all imported transactions belong to.
    pub budget_id: String,
}

/// The persisted configuration: every connected provider, in the stable
/// order the sync pass walks them, plus the ledger credential.
pub struct Config {
    /// Connected providers, in configuration order.
    pub providers: Vec<Provider>,
    /// Credential for the budgeting backend.
    pub ledger_credential: LedgerCredential,
}

/// An external bank account, fetched fresh on every sync and never
/// persisted by the engine.
pub struct Account {
    /// Provider-assigned account id.
    pub id: String,
    /// Human-readable account name.
    pub display_name: String,
}

impl Config {
    /// Register a newly authorized provider: it joins the end of the
    /// configuration order, and nothing else changes.
    pub fn register_provider(&mut self, provider: Provider)
        ensures
            final(self).providers@ =~= old(self).providers@.push(provider),
            final(self).ledger_credential == old(self).ledger_credential,
    {
        self.providers.push(provider);
    }
}

impl Clone for Credentials {
    /// Field-for-field copy of the credential.
    fn clone(&self) -> (r: Self)
        ensures
            r == *self,
    {
        match self {
            Credentials::Session(t) => Credentials::Session(t.clone()),
            Credentials::StaticSecret(s) => Credentials::StaticSecret(s.clone()),
        }
    }
}

impl Clone for Provider {
    /// Field-for-field copy of the provider.
    fn clone(&self) -> (r: Self)
        ensures
            r == *self,
    {
        Provider { id: self.id.clone(), kind: self.kind, credentials: self.credentials.clone() }
    }
}

impl Clone for Account {
    /// Field-for-field copy of the account.
    fn clone(&self) -> (r: Self)
        ensures
            r == *self,
    {
        Account { id: self.id.clone(), display_name: self.display_name.clone() }
    }
}

} // verus!
