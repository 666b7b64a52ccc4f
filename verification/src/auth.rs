//! The authorization guard: a caller acts in a role only when it is the
//! address that holds the role.

use vstd::prelude::*;
use crate::error::ContractError;

verus! {

/// Passes exactly when `caller` is `expected`.
pub fn authorize(caller: &String, expected: &String) -> (result: Result<(), ContractError>)
    ensures
        result == (if caller@ == expected@ {
            Ok::<(), ContractError>(())
        } else {
            Err::<(), ContractError>(ContractError::Unauthorized {})
        }),
{
    if *caller == *expected {
        Ok(())
    } else {
        Err(ContractError::Unauthorized {})
    }
}

} // verus!
