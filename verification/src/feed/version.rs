//! Contract versioning: a migration is refused towards a contract of another
//! name or an older version. Version strings are read by the semver crate;
//! the comparison over the numeric triple is the library's own.

use vstd::prelude::*;
use crate::feed::errors::ContractError;
use crate::feed::msg::{MigrateMsg, Response};
use crate::feed::state::FeedState;
use crate::text::str_eq;

verus! {

/// The numeric major/minor/patch triple that the semver crate reads out of a
/// version string, or nothing where the string is not a version.
pub uninterp spec fn semver_triple_of(s: Seq<char>) -> Option<(u64, u64, u64)>;

/// Relies on semver::Version::parse: the major, minor and patch numbers of
/// the parsed version, a function of the string alone; pre-release and build
/// metadata are dropped.
#[verifier::external_body]
fn parse_version(s: &str) -> (r: Option<(u64, u64, u64)>)
    ensures
        r == semver_triple_of(s@),
{
    match semver::Version::parse(s) {
        Ok(v) => Some((v.major, v.minor, v.patch)),
        Err(_) => None,
    }
}

/// `a` names a strictly newer version than `b`: the triples compare
/// lexicographically.
pub open spec fn triple_newer(a: (u64, u64, u64), b: (u64, u64, u64)) -> bool {
    ||| a.0 > b.0
    ||| (a.0 == b.0 && a.1 > b.1)
    ||| (a.0 == b.0 && a.1 == b.1 && a.2 > b.2)
}

/// Decides a migration from the stored contract identity to the current one:
/// another name cannot migrate, and neither can a stored version newer than
/// the current one.
pub fn check_migration(
    stored_contract: &String,
    stored_version: &String,
    stored: (u64, u64, u64),
    current_contract: &str,
    current: (u64, u64, u64),
) -> (r: Result<(), ContractError>)
    ensures
        stored_contract@ != current_contract@ ==> (r matches Err(e)
            && e matches ContractError::CannotMigrate { previous_contract }
            && previous_contract@ == stored_contract@),
        stored_contract@ == current_contract@ && triple_newer(stored, current) ==> (r matches Err(e)
            && e matches ContractError::CannotMigrateVersion { previous_version }
            && previous_version@ == stored_version@),
        stored_contract@ == current_contract@ && !triple_newer(stored, current) ==> r is Ok,
{
    if !str_eq(stored_contract.as_str(), current_contract) {
        return Err(ContractError::CannotMigrate { previous_contract: stored_contract.clone() });
    }
    let newer: bool = stored.0 > current.0 || (stored.0 == current.0 && stored.1 > current.1) || (
    stored.0 == current.0 && stored.1 == current.1 && stored.2 > current.2);
    if newer {
        return Err(ContractError::CannotMigrateVersion { previous_version: stored_version.clone() });
    }
    Ok(())
}

pub open spec fn contract_name_spec() -> Seq<char> {
    "ojo-price-feeds"@
}

pub open spec fn contract_version_spec() -> Seq<char> {
    "0.1.0"@
}

pub fn contract_name() -> (s: &'static str)
    ensures
        s@ == contract_name_spec(),
{
    "ojo-price-feeds"
}

pub fn contract_version() -> (s: &'static str)
    ensures
        s@ == contract_version_spec(),
{
    "0.1.0"
}

/// Migrates the contract: the current version and the stored one must both
/// parse, the stored name must be this contract's, and the stored version
/// must not be newer. Nothing in the state changes.
pub fn migrate(state: &FeedState, _msg: MigrateMsg) -> (r: Result<Response, ContractError>)
    ensures
        semver_triple_of(contract_version_spec()) is None ==> (r matches Err(e)
            && e matches ContractError::InvalidVersion { version }
            && version@ == contract_version_spec()),
        semver_triple_of(contract_version_spec()) is Some && semver_triple_of(
            state.contract_version@,
        ) is None ==> (r matches Err(e) && e matches ContractError::InvalidVersion { version }
            && version@ == state.contract_version@),
        semver_triple_of(contract_version_spec()) is Some && semver_triple_of(
            state.contract_version@,
        ) is Some ==> {
            let stored = semver_triple_of(state.contract_version@)->0;
            let current = semver_triple_of(contract_version_spec())->0;
            if state.contract_name@ != contract_name_spec() {
                r matches Err(e) && e matches ContractError::CannotMigrate { previous_contract }
                    && previous_contract@ == state.contract_name@
            } else if triple_newer(stored, current) {
                r matches Err(e) && e matches ContractError::CannotMigrateVersion {
                    previous_version,
                } && previous_version@ == state.contract_version@
            } else {
                r matches Ok(resp) && resp.attributes@.len() == 0 && resp.events@.len() == 0
            }
        },
{
    let current = match parse_version(contract_version()) {
        Some(t) => t,
        None => {
            return Err(
                ContractError::InvalidVersion { version: contract_version().to_owned() },
            );
        },
    };
    let stored = match parse_version(state.contract_version.as_str()) {
        Some(t) => t,
        None => {
            return Err(
                ContractError::InvalidVersion { version: state.contract_version.clone() },
            );
        },
    };
    match check_migration(
        &state.contract_name,
        &state.contract_version,
        stored,
        contract_name(),
        current,
    ) {
        Ok(()) => Ok(Response { attributes: Vec::new(), events: Vec::new() }),
        Err(e) => Err(e),
    }
}

} // verus!
