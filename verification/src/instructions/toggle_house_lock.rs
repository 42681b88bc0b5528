use vstd::prelude::*;
use crate::states::HouseVault;

verus! {

/// Locks an unlocked vault and unlocks a locked one. Returns the new state of
/// the lock.
pub fn toggle_house_lock(house_vault: &mut HouseVault) -> (locked: bool)
    ensures
        locked == !old(house_vault).locked,
        *final(house_vault) == (HouseVault { locked, ..*old(house_vault) }),
{
    house_vault.locked = !house_vault.locked;
    house_vault.locked
}

} // verus!
