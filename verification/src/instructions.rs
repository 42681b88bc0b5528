//! The operations that open, advance and close sessions, and those that
//! administer the vault and the configuration. Each one checks everything
//! before it changes anything: a rejected operation leaves the session and
//! the vault as they were.

pub mod cash_out;
pub mod clean_expired_session;
pub mod init_config;
pub mod init_house_vault;
pub mod lose_session;
pub mod play_round;
pub mod reset_vault_reserved;
pub mod start_session;
pub mod toggle_house_lock;
pub mod update_config;
pub mod withdraw_house;

pub use cash_out::cash_out;
pub use clean_expired_session::{clean_expired_session, reclaim_on_timeout};
pub use init_config::{init_config, GameConfigParams};
pub use init_house_vault::init_house_vault;
pub use lose_session::lose_session;
pub use play_round::{play_round, settle_round};
pub use reset_vault_reserved::reset_vault_reserved;
pub use start_session::start_session;
pub use toggle_house_lock::toggle_house_lock;
pub use update_config::{update_config, UpdateConfigParams};
pub use withdraw_house::withdraw_house;

use vstd::prelude::*;
use crate::errors::GameError;
use crate::instructions::cash_out::cash_out_error;
use crate::instructions::clean_expired_session::reclaim_error;
use crate::instructions::lose_session::lose_session_error;
use crate::instructions::play_round::settle_round_error;
use crate::states::{GameConfig, GameSession, HouseVault, RoundOutcome};

verus! {

/// A session that has ended stays as it is: every operation on it is
/// rejected, whatever the vault, the outcome or the time.
pub proof fn lemma_ended_session_is_final(
    config: &GameConfig,
    session: &GameSession,
    house_vault: &HouseVault,
    vault_balance: u64,
    outcome: RoundOutcome,
    new_treasure: u64,
    now: u64,
    timeout_window: u64,
)
    requires
        !session.is_active(),
    ensures
        session.advance_error(outcome, new_treasure) == Some(GameError::InvalidSessionStatus),
        settle_round_error(config, session, house_vault, outcome) == Some(
            GameError::InvalidSessionStatus,
        ),
        cash_out_error(session, house_vault, vault_balance) == Some(
            GameError::InvalidSessionStatus,
        ),
        lose_session_error(session, house_vault) == Some(GameError::InvalidSessionStatus),
        reclaim_error(session, house_vault, now, timeout_window) is Some,
{
}

/// A session whose treasure does not exceed its bet cannot be cashed out.
pub proof fn lemma_cash_out_needs_profit(
    session: &GameSession,
    house_vault: &HouseVault,
    vault_balance: u64,
)
    requires
        session.current_treasure <= session.bet_amount,
    ensures
        cash_out_error(session, house_vault, vault_balance) is Some,
{
}

} // verus!
