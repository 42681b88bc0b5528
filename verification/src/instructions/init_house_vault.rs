use vstd::prelude::*;
use crate::states::HouseVault;

verus! {

/// A fresh vault for `house_authority`: nothing reserved, and no keeper
/// named, which an all-zero key stands for.
pub fn init_house_vault(
    house_authority: [u8; 32],
    locked: bool,
    bump: u8,
) -> (house_vault: HouseVault)
    ensures
        house_vault.house_authority == house_authority,
        house_vault.game_keeper@ == Seq::new(32, |i: int| 0u8),
        house_vault.locked == locked,
        house_vault.total_reserved == 0,
        house_vault.bump == bump,
{
    let game_keeper = [0u8;32];
    assert(game_keeper@ =~= Seq::new(32, |i: int| 0u8));
    HouseVault { house_authority, game_keeper, locked, total_reserved: 0, bump }
}

} // verus!
