//! Capabilities and the check that a privileged action is backed by the
//! right one.

use crate::account::AccountId;
use crate::error::ErrorCode;
use vstd::prelude::*;

verus! {

/// Proof that its holder acts as `identity`. The host hands one out for each
/// identity whose authorization it has verified for the current operation.
#[derive(Clone, Copy, Debug, PartialEq, Eq)]
pub struct Capability {
    pub identity: AccountId,
}

/// Checks that `presented_capability` carries `expected_identity`.
pub fn require_role(expected_identity: &AccountId, presented_capability: &Capability) -> (result:
    Result<(), ErrorCode>)
    ensures
        result == (if presented_capability.identity == *expected_identity {
            Ok::<(), ErrorCode>(())
        } else {
            Err::<(), ErrorCode>(ErrorCode::Unauthorized)
        }),
{
    if presented_capability.identity == *expected_identity {
        Ok(())
    } else {
        Err(ErrorCode::Unauthorized)
    }
}

} // verus!
