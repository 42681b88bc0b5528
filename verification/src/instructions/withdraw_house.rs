use vstd::prelude::*;
use crate::errors::GameError;
use crate::states::HouseVault;

verus! {

/// Lets the house take `amount` out of the vault, as long as what is reserved
/// for open sessions and `rent_exempt`, the balance that keeps the vault
/// alive, stay behind. Returns the custody balance after the withdrawal.
pub fn withdraw_house(
    house_vault: &HouseVault,
    vault_balance: u64,
    rent_exempt: u64,
    amount: u64,
) -> (res: Result<u64, GameError>)
    ensures
        res is Ok <==> amount <= house_vault.withdraw_allowance_spec(vault_balance, rent_exempt),
        res is Ok ==> res == Ok::<u64, GameError>((vault_balance - amount) as u64),
        res is Err ==> res == Err::<u64, GameError>(GameError::InsufficientVaultBalance),
{
    let available = house_vault.withdraw_allowance(vault_balance, rent_exempt);
    if amount > available {
        return Err(GameError::InsufficientVaultBalance);
    }
    Ok(vault_balance - amount)
}

} // verus!
