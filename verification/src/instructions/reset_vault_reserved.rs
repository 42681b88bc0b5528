use vstd::prelude::*;
use crate::errors::GameError;
use crate::states::HouseVault;

verus! {

/// Confirms that the vault has nothing reserved. A vault with reservations
/// may still back open sessions, so its ledger is never reset.
pub fn reset_vault_reserved(house_vault: &HouseVault) -> (res: Result<(), GameError>)
    ensures
        res is Ok <==> house_vault.total_reserved == 0,
        res is Err ==> res == Err::<(), GameError>(GameError::VaultHasReservedFunds),
{
    if house_vault.total_reserved != 0 {
        return Err(GameError::VaultHasReservedFunds);
    }
    Ok(())
}

} // verus!
