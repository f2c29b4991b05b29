//! The command surface: the parsed command-line forms and the dispatch
//! decision.
//!
//! The surrounding application parses process arguments into [`SyncYnab`]
//! and executes the [`RunPlan`] that [`run`] decides; the decision itself
//! — which operation runs, against which configuration directory — is
//! verified here.

use vstd::prelude::*;

verus! {

/// Global arguments shared by every command.
pub struct SyncYnabArgs {
    /// Directory the configuration (providers, tokens, ledger credential)
    /// is loaded from and saved to.
    pub config_directory: String,
}

/// Arguments of the direct-bank provider diagnostic command.
pub struct RevolutArgs {
    /// Display name of the provider entry to exercise.
    pub display_name: String,
}

/// Arguments of the open-banking provider diagnostic command.
pub struct TruelayerArgs {
    /// Display name of the provider entry to exercise.
    pub display_name: String,
}

/// The configuration subcommands: connectivity and credential tests, and
/// connecting a new open-banking provider.
#[derive(Clone, Copy, Debug, PartialEq, Eq, Structural)]
pub enum ConfigCommands {
    /// Fetch accounts and transactions from every configured provider.
    TestProviders,
    /// Fetch the account list from the budgeting ledger.
    TestYnab,
    /// Interactively authorize and store a new open-banking provider.
    AddTruelayer,
}

/// Arguments of the sync command.
pub struct SyncArgs {}

/// The top-level commands.
pub enum SyncYnabCommands {
    /// Direct-bank provider diagnostics.
    Revolut(RevolutArgs),
    /// Open-banking provider diagnostics.
    Truelayer(TruelayerArgs),
    /// Configuration commands.
    Config(ConfigCommands),
    /// A full sync pass.
    Sync(SyncArgs),
}

/// One parsed command line.
pub struct SyncYnab {
    /// Global arguments.
    pub args: SyncYnabArgs,
    /// The selected command.
    pub command: SyncYnabCommands,
}

/// The operation the application is to carry out.
pub enum RunPlan {
    /// Run the direct-bank provider diagnostics.
    Revolut(RevolutArgs),
    /// Run the open-banking provider diagnostics.
    Truelayer(TruelayerArgs),
    /// Run one configuration command against the configuration directory.
    Config {
        /// Directory holding the configuration.
        config_directory: String,
        /// The selected configuration command.
        command: ConfigCommands,
    },
    /// Run a full sync pass against the configuration directory.
    Sync {
        /// Directory holding the configuration.
        config_directory: String,
    },
}

/// The dispatch decision: which plan a parsed command line runs.
pub open spec fn spec_run(cli: SyncYnab) -> RunPlan {
    match cli.command {
        SyncYnabCommands::Revolut(a) => RunPlan::Revolut(a),
        SyncYnabCommands::Truelayer(a) => RunPlan::Truelayer(a),
        SyncYnabCommands::Config(c) => RunPlan::Config {
            config_directory: cli.args.config_directory,
            command: c,
        },
        SyncYnabCommands::Sync(_) => RunPlan::Sync { config_directory: cli.args.config_directory },
    }
}

/// Decide which operation a parsed command line runs; see [`spec_run`].
pub fn run(cli: SyncYnab) -> (p: RunPlan)
    ensures
        p == spec_run(cli),
{
    match cli.command {
        SyncYnabCommands::Revolut(a) => RunPlan::Revolut(a),
        SyncYnabCommands::Truelayer(a) => RunPlan::Truelayer(a),
        SyncYnabCommands::Config(c) => RunPlan::Config {
            config_directory: cli.args.config_directory,
            command: c,
        },
        SyncYnabCommands::Sync(_) => RunPlan::Sync { config_directory: cli.args.config_directory },
    }
}

} // verus!
