use vstd::prelude::*;
use crate::errors::GameError;
use crate::states::{GameSession, HouseVault, SessionStatus};

verus! {

/// How many slots a session may stay idle before anyone may reclaim it:
/// about an hour.
pub const TIMEOUT_SLOTS: u64 = 9_000;

/// Why a session cannot be reclaimed, if it cannot.
pub open spec fn reclaim_error(
    session: &GameSession,
    house_vault: &HouseVault,
    now: u64,
    timeout_window: u64,
) -> Option<GameError> {
    if now < session.last_active_slot {
        Some(GameError::Overflow)
    } else if now - session.last_active_slot <= timeout_window {
        Some(GameError::SessionNotExpired)
    } else if !session.is_active() {
        Some(GameError::InvalidSessionStatus)
    } else if session.max_payout > house_vault.total_reserved {
        Some(GameError::InsufficientReservation)
    } else {
        None
    }
}

/// What reclaiming a session at `now` comes to: either it is turned down and
/// nothing changes, or the session is lost, its reservation is released and
/// the slots it had been idle for are reported.
pub open spec fn reclaimed(
    session: GameSession,
    house_vault: HouseVault,
    now: u64,
    timeout_window: u64,
    res: Result<u64, GameError>,
    session_after: GameSession,
    vault_after: HouseVault,
) -> bool {
    match reclaim_error(&session, &house_vault, now, timeout_window) {
        Some(e) => res == Err::<u64, GameError>(e)
            && session_after == session
            && vault_after == house_vault,
        None => res == Ok::<u64, GameError>((now - session.last_active_slot) as u64)
            && session_after == session.with_status(SessionStatus::Lost)
            && vault_after == house_vault.with_reserved(
                house_vault.total_reserved - session.max_payout,
            ),
    }
}

/// Ends an active session that has been idle for more than `timeout_window`
/// slots and releases its reservation. The player is paid nothing. Returns
/// for how many slots the session had been idle.
pub fn reclaim_on_timeout(
    session: &mut GameSession,
    house_vault: &mut HouseVault,
    now: u64,
    timeout_window: u64,
) -> (res: Result<u64, GameError>)
    ensures
        reclaimed(
            *old(session),
            *old(house_vault),
            now,
            timeout_window,
            res,
            *final(session),
            *final(house_vault),
        ),
        old(session).well_formed() ==> final(session).well_formed(),
{
    let slots_inactive = match now.checked_sub(session.last_active_slot) {
        Some(idle) => idle,
        None => {
            return Err(GameError::Overflow);
        },
    };
    if slots_inactive <= timeout_window {
        return Err(GameError::SessionNotExpired);
    }
    if session.status != SessionStatus::Active {
        return Err(GameError::InvalidSessionStatus);
    }
    match house_vault.release(session.max_payout) {
        Ok(()) => {},
        Err(e) => {
            return Err(e);
        },
    }
    session.status = SessionStatus::Lost;
    Ok(slots_inactive)
}

/// Reclaims a session that has been idle for more than `TIMEOUT_SLOTS`.
pub fn clean_expired_session(
    session: &mut GameSession,
    house_vault: &mut HouseVault,
    slot: u64,
) -> (res: Result<u64, GameError>)
    ensures
        reclaimed(
            *old(session),
            *old(house_vault),
            slot,
            TIMEOUT_SLOTS,
            res,
            *final(session),
            *final(house_vault),
        ),
        old(session).well_formed() ==> final(session).well_formed(),
{
    reclaim_on_timeout(session, house_vault, slot, TIMEOUT_SLOTS)
}

} // verus!
