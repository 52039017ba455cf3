//! The poller's configuration and its validation.

use vstd::prelude::*;

verus! {

/// Why a configuration would be refused by `is_valid`.
#[derive(Clone, Copy, PartialEq, Eq, Structural, Debug)]
pub enum ConfigError {
    /// Reserved: no rule refuses a configuration today, so this is never
    /// produced; it keeps the failure surface callers are written against.
    Invalid,
}

/// The poller's configuration: the API key for the price source, the ledger
/// contract to relay to, and the account that signs the relay call.
#[derive(Clone, Debug)]
pub struct Config {
    pub cmc_api_key: String,
    pub contract_id: String,
    pub signer_account_id: String,
}

impl Config {
    /// Checks the configuration. Every configuration is accepted: no field
    /// carries a constraint beyond its type.
    pub fn is_valid(&self) -> (r: Result<(), ConfigError>)
        ensures
            r == Ok::<(), ConfigError>(()),
    {
        Ok(())
    }
}

} // verus!
