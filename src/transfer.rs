use vstd::prelude::*;

use crate::state::ErrorCode;

verus! {

/// Moves `quantity` from the balance `from` to the balance `to`, both or neither:
/// fails with `InsufficientFunds`, changing nothing, where `from` holds less.
pub fn transfer(from: &mut u64, to: &mut u64, quantity: u64) -> (r: Result<(), ErrorCode>)
    requires
        *old(from) + *old(to) <= u64::MAX,
    ensures
        *old(from) < quantity ==> r == Err::<(), ErrorCode>(ErrorCode::InsufficientFunds)
            && *final(from) == *old(from) && *final(to) == *old(to),
        quantity <= *old(from) ==> r is Ok && *final(from) == *old(from) - quantity
            && *final(to) == *old(to) + quantity,
{
    if *from < quantity {
        return Err(ErrorCode::InsufficientFunds);
    }
    *from = *from - quantity;
    *to = *to + quantity;
    Ok(())
}

} // verus!
