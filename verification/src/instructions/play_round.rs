use vstd::prelude::*;
use crate::errors::GameError;
use crate::game_math::{
    lemma_treasure_monotonic, lemma_treasure_within_cap, max_payout_spec, treasure_for_dive,
    treasure_spec,
};
use crate::rng::{outcome_of_roll, resolve_round, roll_spec};
use crate::states::{GameConfig, GameSession, HouseVault, RoundOutcome, SessionStatus};

verus! {

/// The treasure that the session holds if it survives the dive it faces.
pub open spec fn next_treasure(config: &GameConfig, session: &GameSession) -> int {
    treasure_spec(config, session.bet_amount, (session.dive_number + 1) as nat)
}

/// Why a round cannot be settled, if it cannot.
pub open spec fn settle_round_error(
    config: &GameConfig,
    session: &GameSession,
    house_vault: &HouseVault,
    outcome: RoundOutcome,
) -> Option<GameError> {
    if !session.is_active() {
        Some(GameError::InvalidSessionStatus)
    } else if session.dive_number >= config.max_dives {
        Some(GameError::MaxDivesReached)
    } else if outcome == RoundOutcome::Lose {
        if session.max_payout > house_vault.total_reserved {
            Some(GameError::InsufficientReservation)
        } else {
            None
        }
    } else if next_treasure(config, session) < session.current_treasure
        || next_treasure(config, session) > session.max_payout {
        Some(GameError::TreasureInvalid)
    } else {
        None
    }
}

/// The session after a settled round: one dive deeper with the next treasure
/// if the dive was survived, lost if it was not.
pub open spec fn session_after_round(
    config: &GameConfig,
    session: GameSession,
    outcome: RoundOutcome,
    slot: u64,
) -> GameSession {
    session.advanced(outcome, next_treasure(config, &session) as u64, slot)
}

/// The vault after a settled round: a lost dive releases what was reserved
/// for the session, a survived dive leaves the vault as it is.
pub open spec fn vault_after_round(
    session: GameSession,
    house_vault: HouseVault,
    outcome: RoundOutcome,
) -> HouseVault {
    match outcome {
        RoundOutcome::Survive => house_vault,
        RoundOutcome::Lose => house_vault.with_reserved(
            house_vault.total_reserved - session.max_payout,
        ),
    }
}

/// What settling a round with `outcome` comes to: either it is turned down
/// and nothing changes, or the outcome is reported and session and vault
/// have moved on.
pub open spec fn round_settled(
    config: &GameConfig,
    session: GameSession,
    house_vault: HouseVault,
    outcome: RoundOutcome,
    slot: u64,
    res: Result<RoundOutcome, GameError>,
    session_after: GameSession,
    vault_after: HouseVault,
) -> bool {
    match settle_round_error(config, &session, &house_vault, outcome) {
        Some(e) => res == Err::<RoundOutcome, GameError>(e)
            && session_after == session
            && vault_after == house_vault,
        None => res == Ok::<RoundOutcome, GameError>(outcome)
            && session_after == session_after_round(config, session, outcome, slot)
            && vault_after == vault_after_round(session, house_vault, outcome),
    }
}

/// Whether the session stands where the curve of `config` puts it: its
/// maximum payout is the one of its bet, and its treasure is the bet before
/// the first survived dive and the treasure of its dive after.
pub open spec fn on_curve(config: &GameConfig, session: &GameSession) -> bool {
    &&& session.max_payout == max_payout_spec(config, session.bet_amount)
    &&& session.current_treasure == if session.dive_number <= 1 {
        session.bet_amount as int
    } else {
        treasure_spec(config, session.bet_amount, session.dive_number as nat)
    }
}

/// Under a valid configuration that multiplies by at least one, a session
/// on the curve can always survive its dive: the next treasure neither
/// shrinks nor exceeds what is reserved, and the session stays on the curve.
pub proof fn lemma_survival_follows_curve(
    config: &GameConfig,
    session: &GameSession,
    house_vault: &HouseVault,
    slot: u64,
)
    requires
        config.is_valid(),
        config.treasure_multiplier_num >= config.treasure_multiplier_den,
        session.is_active(),
        1 <= session.dive_number < config.max_dives,
        on_curve(config, session),
    ensures
        settle_round_error(config, session, house_vault, RoundOutcome::Survive) is None,
        on_curve(config, &session_after_round(config, *session, RoundOutcome::Survive, slot)),
{
    let dive = session.dive_number as nat;
    lemma_treasure_within_cap(config, session.bet_amount, dive + 1);
    if dive == 1 {
        lemma_treasure_monotonic(config, session.bet_amount, 0, 2);
    } else {
        lemma_treasure_monotonic(config, session.bet_amount, dive, dive + 1);
    }
}

/// Applies a decided dive to the session. A survived dive moves the session
/// one dive deeper and raises its treasure; a lost dive ends the session and
/// releases its reservation.
pub fn settle_round(
    config: &GameConfig,
    session: &mut GameSession,
    house_vault: &mut HouseVault,
    outcome: RoundOutcome,
    slot: u64,
) -> (res: Result<RoundOutcome, GameError>)
    ensures
        round_settled(
            config,
            *old(session),
            *old(house_vault),
            outcome,
            slot,
            res,
            *final(session),
            *final(house_vault),
        ),
        res is Ok && final(session).is_active() ==> final(session).dive_number <= config.max_dives,
        old(session).well_formed() ==> final(session).well_formed(),
        old(session).dive_number >= 1 && on_curve(config, old(session)) ==> on_curve(
            config,
            final(session),
        ),
{
    if session.status != SessionStatus::Active {
        return Err(GameError::InvalidSessionStatus);
    }
    if session.dive_number >= config.max_dives {
        return Err(GameError::MaxDivesReached);
    }
    match outcome {
        RoundOutcome::Survive => {
            let treasure = treasure_for_dive(config, session.bet_amount, session.dive_number + 1);
            match session.advance(outcome, treasure, slot) {
                Ok(()) => Ok(outcome),
                Err(e) => Err(e),
            }
        },
        RoundOutcome::Lose => {
            if session.max_payout > house_vault.total_reserved {
                return Err(GameError::InsufficientReservation);
            }
            match session.advance(outcome, session.current_treasure, slot) {
                Ok(()) => {},
                Err(e) => {
                    return Err(e);
                },
            }
            match house_vault.release(session.max_payout) {
                Ok(()) => Ok(outcome),
                Err(e) => Err(e),
            }
        },
    }
}

/// Plays the dive that the session faces: decides it from `entropy` and
/// settles it.
pub fn play_round(
    config: &GameConfig,
    session: &mut GameSession,
    house_vault: &mut HouseVault,
    entropy: &[u8; 32],
    slot: u64,
) -> (res: Result<RoundOutcome, GameError>)
    ensures
        round_settled(
            config,
            *old(session),
            *old(house_vault),
            outcome_of_roll(
                config,
                old(session).dive_number,
                roll_spec(entropy@, old(session).dive_number),
            ),
            slot,
            res,
            *final(session),
            *final(house_vault),
        ),
        res is Ok && final(session).is_active() ==> final(session).dive_number <= config.max_dives,
        old(session).well_formed() ==> final(session).well_formed(),
        old(session).dive_number >= 1 && on_curve(config, old(session)) ==> on_curve(
            config,
            final(session),
        ),
{
    let outcome = resolve_round(entropy, session.dive_number, config);
    settle_round(config, session, house_vault, outcome, slot)
}

} // verus!
