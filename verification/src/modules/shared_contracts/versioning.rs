//! The shared-contracts version and the semver rules for changing it.

use vstd::prelude::*;

verus! {

#[derive(Debug, Clone, Copy, PartialEq, Eq, Structural)]
pub enum SemverChange {
    Patch,
    Minor,
    Major,
}

#[derive(Debug, Clone, PartialEq, Eq)]
pub struct CompatibilityInfo {
    pub contract_version: &'static str,
    pub supported_min: &'static str,
    pub supported_max_exclusive: &'static str,
}

/// Why a change is refused, if it is: breaking changes need a major release.
pub open spec fn change_refusal(change: SemverChange, is_breaking: bool) -> Option<Seq<char>> {
    if is_breaking && change == SemverChange::Patch {
        Some("breaking changes are not allowed in patch releases"@)
    } else if is_breaking && change == SemverChange::Minor {
        Some("breaking changes are not allowed in minor releases"@)
    } else {
        None
    }
}

impl CompatibilityInfo {
    pub fn current() -> (r: Self)
        ensures
            r.contract_version@ == "1.0.0"@,
            r.supported_min@ == "1.0.0"@,
            r.supported_max_exclusive@ == "2.0.0"@,
    {
        CompatibilityInfo {
            contract_version: "1.0.0",
            supported_min: "1.0.0",
            supported_max_exclusive: "2.0.0",
        }
    }

    pub fn is_change_allowed(change: SemverChange, is_breaking: bool) -> (r: Result<
        (),
        &'static str,
    >)
        ensures
            r is Ok <==> change_refusal(change, is_breaking) is None,
            r matches Err(m) ==> change_refusal(change, is_breaking) == Some(m@),
    {
        match (change, is_breaking) {
            (SemverChange::Patch, true) => Err("breaking changes are not allowed in patch releases"),
            (SemverChange::Minor, true) => Err("breaking changes are not allowed in minor releases"),
            _ => Ok(()),
        }
    }
}

} // verus!
