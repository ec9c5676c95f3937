//! The shared-contracts versions the admin console supports.

use crate::modules::shared_contracts::versioning::CompatibilityInfo;
use crate::text::starts_with;
use vstd::prelude::*;

verus! {

const SUPPORTED_MIN: &'static str = "1.0.0";

const SUPPORTED_MAX_EXCLUSIVE: &'static str = "2.0.0";

#[derive(Debug, Clone, PartialEq, Eq)]
pub struct CompatibilityRange {
    pub min: &'static str,
    pub max_exclusive: &'static str,
}

pub fn supported_shared_contracts_range() -> (r: CompatibilityRange)
    ensures
        r.min@ == "1.0.0"@,
        r.max_exclusive@ == "2.0.0"@,
{
    CompatibilityRange { min: SUPPORTED_MIN, max_exclusive: SUPPORTED_MAX_EXCLUSIVE }
}

/// The current shared-contracts version is a `1.x` version, which this
/// console supports.
pub fn assert_shared_contracts_compatibility() -> (r: Result<(), String>)
    ensures
        r is Ok,
{
    let actual = CompatibilityInfo::current();
    proof {
        reveal_strlit("1.0.0");
        reveal_strlit("1.");
        assert(actual.contract_version@.subrange(0, 2) =~= "1."@);
    }
    if !starts_with(actual.contract_version, "1.") {
        let message = String::from_str("unsupported shared-contracts version ").concat(
            actual.contract_version,
        ).concat(" (supported: >= ").concat(SUPPORTED_MIN).concat(", < ").concat(
            SUPPORTED_MAX_EXCLUSIVE,
        ).concat(")");
        return Err(message);
    }
    Ok(())
}

} // verus!
