use vstd::prelude::*;
use crate::errors::GameError;
use crate::states::{GameSession, HouseVault, SessionStatus};

verus! {

/// Why a session cannot be cashed out, if it cannot.
pub open spec fn cash_out_error(
    session: &GameSession,
    house_vault: &HouseVault,
    vault_balance: u64,
) -> Option<GameError> {
    if !session.is_active() {
        Some(GameError::InvalidSessionStatus)
    } else if house_vault.locked {
        Some(GameError::HouseLocked)
    } else if session.current_treasure <= session.bet_amount {
        Some(GameError::InsufficientTreasure)
    } else if vault_balance < session.current_treasure {
        Some(GameError::InsufficientVaultBalance)
    } else if session.max_payout > house_vault.total_reserved {
        Some(GameError::InsufficientReservation)
    } else {
        None
    }
}

/// The session after it has been cashed out in `slot`.
pub open spec fn cashed_out_session(session: GameSession, slot: u64) -> GameSession {
    GameSession { status: SessionStatus::CashedOut, last_active_slot: slot, ..session }
}

/// Ends an active session that is in profit and releases its reservation.
/// Returns what is owed to the player: the session's treasure, which for a
/// well-formed session is never more than was reserved for it.
/// `vault_balance` is what the vault holds in custody.
pub fn cash_out(
    session: &mut GameSession,
    house_vault: &mut HouseVault,
    vault_balance: u64,
    slot: u64,
) -> (res: Result<u64, GameError>)
    ensures
        match cash_out_error(old(session), old(house_vault), vault_balance) {
            Some(e) => res == Err::<u64, GameError>(e)
                && *final(session) == *old(session)
                && *final(house_vault) == *old(house_vault),
            None => res == Ok::<u64, GameError>(old(session).current_treasure)
                && *final(session) == cashed_out_session(*old(session), slot)
                && *final(house_vault) == old(house_vault).with_reserved(
                    old(house_vault).total_reserved - old(session).max_payout,
                ),
        },
        old(session).well_formed() ==> final(session).well_formed(),
        old(session).well_formed() ==> (res matches Ok(payout) ==> payout
            <= old(session).max_payout),
{
    match session.ensure_active() {
        Ok(()) => {},
        Err(e) => {
            return Err(e);
        },
    }
    if house_vault.locked {
        return Err(GameError::HouseLocked);
    }
    if session.current_treasure <= session.bet_amount {
        return Err(GameError::InsufficientTreasure);
    }
    if !house_vault.check_solvency(vault_balance, session.current_treasure) {
        return Err(GameError::InsufficientVaultBalance);
    }
    match house_vault.release(session.max_payout) {
        Ok(()) => {},
        Err(e) => {
            return Err(e);
        },
    }
    session.last_active_slot = slot;
    session.status = SessionStatus::CashedOut;
    Ok(session.current_treasure)
}

} // verus!
