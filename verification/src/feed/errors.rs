//! Failures of the oracle contract. Every operation either commits all of
//! its writes or returns one of these with the state untouched.

use vstd::prelude::*;

verus! {

#[derive(PartialEq, Eq, Debug)]
pub enum ContractError {
    /// The caller is not the admin.
    UnauthorizedAdmin {},
    /// The caller is not a registered relayer.
    UnauthorizedRelayer { msg: String },
    /// Median queries are switched off.
    MedianDisabled {},
    /// Price requests are switched off.
    TriggerRequestDisabled {},
    /// The rotation scheduler found no live relayer.
    RelayerNotFound {},
    /// No stored value under this key.
    NotFound { key: String },
    /// A cross-rate was asked against a zero quote rate.
    DivideByZero {},
    /// A migration from a contract of another name.
    CannotMigrate { previous_contract: String },
    /// A migration to an older version.
    CannotMigrateVersion { previous_version: String },
    /// A version string that does not parse.
    InvalidVersion { version: String },
}

} // verus!
