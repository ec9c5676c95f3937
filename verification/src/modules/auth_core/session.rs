//! When a stored session must re-authenticate.

use vstd::prelude::*;

verus! {

#[derive(Debug, Clone, Copy, PartialEq, Eq, Structural)]
pub struct SessionState {
    pub binding_epoch: u64,
    pub token_epoch: u64,
}

/// A token from an earlier binding epoch forces re-authentication.
pub fn should_force_reauth(state: &SessionState) -> (r: bool)
    ensures
        r == (state.token_epoch != state.binding_epoch),
{
    state.token_epoch != state.binding_epoch
}

} // verus!
