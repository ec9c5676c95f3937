//! What an operator's scopes allow.

use crate::text::str_eq;
use vstd::prelude::*;

verus! {

/// Some scope is exactly `scope`.
pub open spec fn has_scope(scopes: Seq<String>, scope: Seq<char>) -> bool {
    exists|i: int| 0 <= i < scopes.len() && (#[trigger] scopes[i])@ == scope
}

/// Reading needs `admin:read` or `admin:reset:write`.
pub fn can_read(scopes: &[String]) -> (r: bool)
    ensures
        r == (has_scope(scopes@, "admin:read"@) || has_scope(scopes@, "admin:reset:write"@)),
{
    let mut i: usize = 0;
    while i < scopes.len()
        invariant
            i <= scopes@.len(),
            forall|j: int|
                0 <= j < i ==> (#[trigger] scopes@[j])@ != "admin:read"@ && scopes@[j]@
                    != "admin:reset:write"@,
        decreases scopes.len() - i,
    {
        if str_eq(scopes[i].as_str(), "admin:read") || str_eq(
            scopes[i].as_str(),
            "admin:reset:write",
        ) {
            return true;
        }
        i = i + 1;
    }
    false
}

/// Deciding resets needs `admin:reset:write`.
pub fn can_write_reset(scopes: &[String]) -> (r: bool)
    ensures
        r == has_scope(scopes@, "admin:reset:write"@),
{
    let mut i: usize = 0;
    while i < scopes.len()
        invariant
            i <= scopes@.len(),
            forall|j: int| 0 <= j < i ==> (#[trigger] scopes@[j])@ != "admin:reset:write"@,
        decreases scopes.len() - i,
    {
        if str_eq(scopes[i].as_str(), "admin:reset:write") {
            return true;
        }
        i = i + 1;
    }
    false
}

} // verus!
