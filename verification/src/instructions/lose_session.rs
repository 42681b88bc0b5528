use vstd::prelude::*;
use crate::errors::GameError;
use crate::states::{GameSession, HouseVault, SessionStatus};

verus! {

/// Why a session cannot be given up, if it cannot.
pub open spec fn lose_session_error(
    session: &GameSession,
    house_vault: &HouseVault,
) -> Option<GameError> {
    if !session.is_active() {
        Some(GameError::InvalidSessionStatus)
    } else if session.max_payout > house_vault.total_reserved {
        Some(GameError::InsufficientReservation)
    } else {
        None
    }
}

/// Ends an active session as lost and releases its reservation.
pub fn lose_session(
    session: &mut GameSession,
    house_vault: &mut HouseVault,
) -> (res: Result<(), GameError>)
    ensures
        match lose_session_error(old(session), old(house_vault)) {
            Some(e) => res == Err::<(), GameError>(e)
                && *final(session) == *old(session)
                && *final(house_vault) == *old(house_vault),
            None => res is Ok
                && *final(session) == old(session).with_status(SessionStatus::Lost)
                && *final(house_vault) == old(house_vault).with_reserved(
                    old(house_vault).total_reserved - old(session).max_payout,
                ),
        },
        old(session).well_formed() ==> final(session).well_formed(),
{
    if session.status != SessionStatus::Active {
        return Err(GameError::InvalidSessionStatus);
    }
    match house_vault.release(session.max_payout) {
        Ok(()) => {},
        Err(e) => {
            return Err(e);
        },
    }
    session.status = SessionStatus::Lost;
    Ok(())
}

} // verus!
