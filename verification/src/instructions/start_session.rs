use vstd::prelude::*;
use crate::errors::GameError;
use crate::game_math::{lemma_treasure_within_cap, max_payout_for_bet, max_payout_spec};
use crate::instructions::play_round::on_curve;
use crate::states::{GameConfig, GameSession, HouseVault, SessionStatus};

verus! {

/// Whether `bet_amount` lies within the configured bounds. A `max_bet` of
/// zero leaves the bet unbounded above.
pub open spec fn bet_in_bounds(config: &GameConfig, bet_amount: u64) -> bool {
    config.min_bet <= bet_amount && (config.max_bet > 0 ==> bet_amount <= config.max_bet)
}

/// Why a session cannot be opened, if it cannot.
pub open spec fn start_session_error(
    config: &GameConfig,
    house_vault: &HouseVault,
    vault_balance: u64,
    bet_amount: u64,
) -> Option<GameError> {
    let max_payout = max_payout_spec(config, bet_amount);
    if house_vault.locked {
        Some(GameError::HouseLocked)
    } else if !bet_in_bounds(config, bet_amount) {
        Some(GameError::InvalidBetAmount)
    } else if !house_vault.can_back(vault_balance, max_payout as u64) {
        Some(GameError::InsufficientVaultBalance)
    } else if house_vault.total_reserved + max_payout > u64::MAX {
        Some(GameError::Overflow)
    } else {
        None
    }
}

/// The session that a successful opening yields: active, at its first dive,
/// with the bet as its treasure.
pub open spec fn opened_session(
    config: &GameConfig,
    user: [u8; 32],
    vault_key: [u8; 32],
    bump: u8,
    bet_amount: u64,
    slot: u64,
) -> GameSession {
    GameSession {
        user,
        house_vault: vault_key,
        status: SessionStatus::Active,
        bet_amount,
        current_treasure: bet_amount,
        max_payout: max_payout_spec(config, bet_amount) as u64,
        dive_number: 1,
        bump,
        last_active_slot: slot,
    }
}

/// Opens a session for `user` with `bet_amount` at stake and reserves its
/// maximum payout in the vault. `vault_balance` is what the vault holds in
/// custody once the stake has been received.
pub fn start_session(
    config: &GameConfig,
    house_vault: &mut HouseVault,
    vault_balance: u64,
    user: [u8; 32],
    vault_key: [u8; 32],
    bump: u8,
    bet_amount: u64,
    slot: u64,
) -> (res: Result<GameSession, GameError>)
    ensures
        match start_session_error(config, old(house_vault), vault_balance, bet_amount) {
            Some(e) => res == Err::<GameSession, GameError>(e)
                && *final(house_vault) == *old(house_vault),
            None => res == Ok::<GameSession, GameError>(
                opened_session(config, user, vault_key, bump, bet_amount, slot),
            ) && *final(house_vault) == old(house_vault).with_reserved(
                old(house_vault).total_reserved + max_payout_spec(config, bet_amount),
            ),
        },
        res matches Ok(session) ==> on_curve(config, &session) && (config.is_valid()
            ==> session.well_formed()),
{
    if house_vault.locked {
        return Err(GameError::HouseLocked);
    }
    if bet_amount < config.min_bet {
        return Err(GameError::InvalidBetAmount);
    }
    if config.max_bet > 0 && bet_amount > config.max_bet {
        return Err(GameError::InvalidBetAmount);
    }
    let max_payout = max_payout_for_bet(config, bet_amount);
    if !house_vault.check_open_solvency(vault_balance, max_payout) {
        return Err(GameError::InsufficientVaultBalance);
    }
    match house_vault.reserve(max_payout) {
        Ok(()) => {},
        Err(e) => {
            return Err(e);
        },
    }
    proof {
        if config.is_valid() {
            lemma_treasure_within_cap(config, bet_amount, 0);
        }
    }
    Ok(
        GameSession {
            user,
            house_vault: vault_key,
            status: SessionStatus::Active,
            bet_amount,
            current_treasure: bet_amount,
            max_payout,
            dive_number: 1,
            bump,
            last_active_slot: slot,
        },
    )
}

} // verus!
