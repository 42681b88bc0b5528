use dive_game::errors::GameError;
use dive_game::states::{GameConfig, GameSession, HouseVault, RoundOutcome, SessionStatus};

fn test_config() -> GameConfig {
    let (base, decay, min, num, den, max_mult, max_dives, min_bet, max_bet) =
        GameConfig::default_config();
    GameConfig {
        admin: [0u8; 32],
        base_survival_ppm: base,
        decay_per_dive_ppm: decay,
        min_survival_ppm: min,
        treasure_multiplier_num: num,
        treasure_multiplier_den: den,
        max_payout_multiplier: max_mult,
        max_dives,
        min_bet,
        max_bet,
        bump: 0,
    }
}

fn test_session() -> GameSession {
    GameSession {
        user: [0u8; 32],
        house_vault: [0u8; 32],
        status: SessionStatus::Active,
        bet_amount: 1_000_000,
        current_treasure: 1_000_000,
        max_payout: 100_000_000,
        dive_number: 1,
        bump: 0,
        last_active_slot: 0,
    }
}

fn test_vault() -> HouseVault {
    HouseVault {
        house_authority: [0u8; 32],
        game_keeper: [0u8; 32],
        total_reserved: 0,
        locked: false,
        bump: 0,
    }
}

#[test]
fn test_default_config_values() {
    assert_eq!(
        GameConfig::default_config(),
        (700_000, 8_000, 50_000, 19, 10, 100, 5, 50_000_000, 100_000_000)
    );
}

#[test]
fn test_validate_valid_config() {
    let config = test_config();
    assert!(config.validate().is_ok());
}

#[test]
fn test_validate_zero_treasure_denominator() {
    let mut config = test_config();
    config.treasure_multiplier_den = 0;
    assert!(config.validate().is_err());
}

#[test]
fn test_validate_zero_treasure_numerator() {
    let mut config = test_config();
    config.treasure_multiplier_num = 0;
    assert!(config.validate().is_err());
}

#[test]
fn test_validate_zero_max_payout_multiplier() {
    let mut config = test_config();
    config.max_payout_multiplier = 0;
    assert!(config.validate().is_err());
}

#[test]
fn test_validate_base_survival_exceeds_100_percent() {
    let mut config = test_config();
    config.base_survival_ppm = 1_000_001;
    assert!(config.validate().is_err());
}

#[test]
fn test_validate_min_survival_exceeds_base() {
    let mut config = test_config();
    config.min_survival_ppm = config.base_survival_ppm + 1;
    assert!(config.validate().is_err());
}

#[test]
fn test_validate_zero_max_dives() {
    let mut config = test_config();
    config.max_dives = 0;
    assert!(config.validate().is_err());
}

#[test]
fn test_validate_min_bet_exceeds_max_bet() {
    let mut config = test_config();
    config.max_bet = 100;
    config.min_bet = 200;
    assert!(config.validate().is_err());
}

#[test]
fn test_validate_max_bet_zero_is_valid() {
    let mut config = test_config();
    config.max_bet = 0;
    config.min_bet = 1000;
    assert!(config.validate().is_ok());
}

#[test]
fn test_validate_decay_exceeds_base() {
    let mut config = test_config();
    config.decay_per_dive_ppm = config.base_survival_ppm + 1;
    assert_eq!(config.validate(), Err(GameError::InvalidConfig));
    config.decay_per_dive_ppm = config.base_survival_ppm;
    assert_eq!(config.validate(), Ok(()));
}

#[test]
fn test_validate_boundaries() {
    let mut config = test_config();
    config.base_survival_ppm = 1_000_000;
    config.min_survival_ppm = 1_000_000;
    config.min_bet = 100_000_000;
    assert_eq!(config.validate(), Ok(()));
    config.min_bet = 100_000_001;
    assert_eq!(config.validate(), Err(GameError::InvalidConfig));
}

#[test]
fn test_ensure_active_when_active() {
    let session = test_session();
    assert!(session.ensure_active().is_ok());
}

#[test]
fn test_ensure_active_when_lost() {
    let mut session = test_session();
    session.status = SessionStatus::Lost;
    assert!(session.ensure_active().is_err());
}

#[test]
fn test_ensure_active_when_cashed_out() {
    let mut session = test_session();
    session.status = SessionStatus::CashedOut;
    assert!(session.ensure_active().is_err());
    assert_eq!(
        session.ensure_active(),
        Err(GameError::InvalidSessionStatus)
    );
}

#[test]
fn test_mark_lost_when_active() {
    let mut session = test_session();
    assert!(session.mark_lost().is_ok());
    assert_eq!(session.status, SessionStatus::Lost);
}

#[test]
fn test_mark_lost_when_already_lost() {
    let mut session = test_session();
    session.status = SessionStatus::Lost;
    assert!(session.mark_lost().is_err());
}

#[test]
fn test_mark_lost_when_cashed_out() {
    let mut session = test_session();
    session.status = SessionStatus::CashedOut;
    assert!(session.mark_lost().is_err());
    assert_eq!(session.status, SessionStatus::CashedOut);
}

#[test]
fn test_mark_cashed_out_when_active() {
    let mut session = test_session();
    assert!(session.mark_cashed_out().is_ok());
    assert_eq!(session.status, SessionStatus::CashedOut);
}

#[test]
fn test_mark_cashed_out_when_lost() {
    let mut session = test_session();
    session.status = SessionStatus::Lost;
    assert!(session.mark_cashed_out().is_err());
    assert_eq!(session.status, SessionStatus::Lost);
}

#[test]
fn test_mark_cashed_out_when_already_cashed_out() {
    let mut session = test_session();
    session.status = SessionStatus::CashedOut;
    assert!(session.mark_cashed_out().is_err());
}

#[test]
fn test_advance_survive_moves_one_dive_deeper() {
    let mut session = test_session();
    assert_eq!(
        session.advance(RoundOutcome::Survive, 1_900_000, 42),
        Ok(())
    );
    assert_eq!(session.status, SessionStatus::Active);
    assert_eq!(session.dive_number, 2);
    assert_eq!(session.current_treasure, 1_900_000);
    assert_eq!(session.last_active_slot, 42);
    assert_eq!(session.bet_amount, 1_000_000);
    assert_eq!(session.max_payout, 100_000_000);
}

#[test]
fn test_advance_lose_ends_the_session() {
    let mut session = test_session();
    assert_eq!(session.advance(RoundOutcome::Lose, 5, 42), Ok(()));
    assert_eq!(session.status, SessionStatus::Lost);
    assert_eq!(session.dive_number, 1);
    assert_eq!(session.current_treasure, 1_000_000);
    assert_eq!(session.last_active_slot, 0);
}

#[test]
fn test_advance_rejects_treasure_out_of_range() {
    let mut session = test_session();
    assert_eq!(
        session.advance(RoundOutcome::Survive, 999_999, 42),
        Err(GameError::TreasureInvalid)
    );
    assert_eq!(
        session.advance(RoundOutcome::Survive, 100_000_001, 42),
        Err(GameError::TreasureInvalid)
    );
    assert_eq!(session.dive_number, 1);
    assert_eq!(session.current_treasure, 1_000_000);
    assert_eq!(session.last_active_slot, 0);
    assert_eq!(
        session.advance(RoundOutcome::Survive, 100_000_000, 42),
        Ok(())
    );
    assert_eq!(session.current_treasure, 100_000_000);
}

#[test]
fn test_advance_rejects_ended_session() {
    for status in [SessionStatus::Lost, SessionStatus::CashedOut] {
        for outcome in [RoundOutcome::Survive, RoundOutcome::Lose] {
            let mut session = test_session();
            session.status = status;
            assert_eq!(
                session.advance(outcome, 2_000_000, 9),
                Err(GameError::InvalidSessionStatus)
            );
            assert_eq!(session.status, status);
            assert_eq!(session.dive_number, 1);
            assert_eq!(session.current_treasure, 1_000_000);
        }
    }
}

#[test]
fn test_advance_at_deepest_dive() {
    let mut session = test_session();
    session.dive_number = u16::MAX;
    assert_eq!(
        session.advance(RoundOutcome::Survive, 2_000_000, 9),
        Err(GameError::MaxDivesReached)
    );
    assert_eq!(session.dive_number, u16::MAX);
    assert_eq!(session.advance(RoundOutcome::Lose, 2_000_000, 9), Ok(()));
    assert_eq!(session.status, SessionStatus::Lost);
}

#[test]
fn test_reserve_success() {
    let mut vault = test_vault();
    assert!(vault.reserve(1000).is_ok());
    assert_eq!(vault.total_reserved, 1000);
}

#[test]
fn test_reserve_multiple_times() {
    let mut vault = test_vault();
    assert!(vault.reserve(1000).is_ok());
    assert!(vault.reserve(500).is_ok());
    assert_eq!(vault.total_reserved, 1500);
}

#[test]
fn test_reserve_overflow() {
    let mut vault = test_vault();
    vault.total_reserved = u64::MAX;
    assert!(vault.reserve(1).is_err());
    assert_eq!(vault.reserve(1), Err(GameError::Overflow));
    assert_eq!(vault.total_reserved, u64::MAX);
    assert_eq!(vault.reserve(0), Ok(()));
}

#[test]
fn test_release_success() {
    let mut vault = test_vault();
    vault.total_reserved = 1000;
    assert!(vault.release(500).is_ok());
    assert_eq!(vault.total_reserved, 500);
}

#[test]
fn test_release_full_amount() {
    let mut vault = test_vault();
    vault.total_reserved = 1000;
    assert!(vault.release(1000).is_ok());
    assert_eq!(vault.total_reserved, 0);
}

#[test]
fn test_release_more_than_reserved() {
    let mut vault = test_vault();
    vault.total_reserved = 500;
    // More than is reserved is refused, and nothing is released.
    assert_eq!(
        vault.release(1000),
        Err(GameError::InsufficientReservation)
    );
    assert_eq!(vault.total_reserved, 500);
}

#[test]
fn test_release_underflow() {
    let mut vault = test_vault();
    vault.total_reserved = 0;
    // Nothing is reserved, so nothing can be released.
    assert_eq!(vault.release(1), Err(GameError::InsufficientReservation));
    assert_eq!(vault.total_reserved, 0);
}

#[test]
fn test_reserve_and_release_cycle() {
    let mut vault = test_vault();

    // Reserve for first session
    assert!(vault.reserve(1000).is_ok());
    assert_eq!(vault.total_reserved, 1000);

    // Reserve for second session
    assert!(vault.reserve(2000).is_ok());
    assert_eq!(vault.total_reserved, 3000);

    // Release first session
    assert!(vault.release(1000).is_ok());
    assert_eq!(vault.total_reserved, 2000);

    // Release second session
    assert!(vault.release(2000).is_ok());
    assert_eq!(vault.total_reserved, 0);
}

#[test]
fn test_ledger_equals_unreleased_reservations() {
    let mut vault = test_vault();
    let mut outstanding: u128 = 0;
    let calls: [(bool, u64); 9] = [
        (true, 700),
        (true, u64::MAX),
        (false, 701),
        (true, 300),
        (false, 1_000),
        (false, 1),
        (true, 5),
        (true, u64::MAX - 4),
        (false, 5),
    ];
    for (is_reserve, amount) in calls {
        let accepted = if is_reserve {
            vault.reserve(amount).is_ok()
        } else {
            vault.release(amount).is_ok()
        };
        if accepted {
            if is_reserve {
                outstanding += amount as u128;
            } else {
                outstanding -= amount as u128;
            }
        }
        assert_eq!(vault.total_reserved as u128, outstanding);
    }
    assert_eq!(vault.total_reserved, 0);
}

#[test]
fn test_check_solvency_at_payout() {
    let vault = test_vault();
    assert!(vault.check_solvency(1_000, 1_000));
    assert!(vault.check_solvency(1_000, 0));
    assert!(!vault.check_solvency(999, 1_000));
}

#[test]
fn test_check_open_solvency() {
    let mut vault = test_vault();
    vault.total_reserved = 400;
    assert!(vault.check_open_solvency(1_000, 600));
    assert!(!vault.check_open_solvency(1_000, 601));
    assert!(vault.check_open_solvency(400, 0));
    // More reserved than held: nothing can be backed, not even nothing.
    assert!(!vault.check_open_solvency(399, 0));
    assert!(vault.check_open_solvency(u64::MAX, u64::MAX - 400));
    assert!(!vault.check_open_solvency(u64::MAX, u64::MAX - 399));
}

#[test]
fn test_withdraw_allowance() {
    let mut vault = test_vault();
    vault.total_reserved = 400;
    assert_eq!(vault.withdraw_allowance(1_000, 100), 500);
    assert_eq!(vault.withdraw_allowance(500, 100), 0);
    assert_eq!(vault.withdraw_allowance(499, 100), 0);
    assert_eq!(vault.withdraw_allowance(0, 0), 0);
    vault.total_reserved = u64::MAX;
    assert_eq!(vault.withdraw_allowance(u64::MAX, u64::MAX), 0);
    vault.total_reserved = 0;
    assert_eq!(vault.withdraw_allowance(u64::MAX, 0), u64::MAX);
}
