//! The command-line surface as plain data: the front end parses arguments
//! into these and dispatches on them.

use vstd::prelude::*;

verus! {

/// One invocation's subcommand and flags.
#[derive(Debug, Clone, PartialEq, Eq)]
pub enum Commands {
    /// Create a new token mint with the given decimal precision.
    CreateToken { decimals: u8 },
    /// Airdrop `amount` base units of `token_mint` to each address listed
    /// in the file at `recipients`, one transaction per recipient.
    Airdrop { token_mint: String, amount: u64, recipients: String },
    /// The same distribution as one accumulated transaction.
    BatchAirdrop { token_mint: String, amount: u64, recipients: String },
    /// Report the token balance of `address` for `token_mint`.
    CheckBalance { token_mint: String, address: String },
}

/// A parsed command line.
#[derive(Debug, Clone, PartialEq, Eq)]
pub struct Cli {
    pub command: Commands,
}

} // verus!
