//! The records of the game: the vault's ledger, the configuration and the
//! player's session, with the rules that each of them obeys.

use vstd::prelude::*;
use crate::conservation::{reserved_after, LedgerOp};
use crate::errors::GameError;

verus! {

/// Parts per million in a whole.
pub const PPM_SCALE: u32 = 1_000_000;

/// Share of a new session's maximum payout, in percent, that the vault must
/// hold free of reservations before the session is opened.
pub const RESERVE_COVERAGE_PERCENT: u64 = 100;

/// The free liquidity that a session with this maximum payout asks for.
pub open spec fn required_liquidity(new_max_payout: u64) -> int {
    new_max_payout * RESERVE_COVERAGE_PERCENT / 100
}

/// Where a session stands. `Lost` and `CashedOut` are final.
#[derive(Clone, Copy, PartialEq, Eq, Debug, Structural)]
pub enum SessionStatus {
    Active,
    Lost,
    CashedOut,
}

/// How one dive ended.
#[derive(Clone, Copy, PartialEq, Eq, Debug, Structural)]
pub enum RoundOutcome {
    Survive,
    Lose,
}

/// The house's ledger: what it has promised to open sessions.
///
/// The funds themselves are held in custody elsewhere; operations that need
/// the custody balance take it as an argument.
#[derive(Clone, Copy, Debug)]
pub struct HouseVault {
    /// Who may withdraw and reconfigure.
    pub house_authority: [u8; 32],
    /// Who may sign rounds on the house's behalf.
    pub game_keeper: [u8; 32],
    /// While set, no session can be opened or cashed out.
    pub locked: bool,
    /// Sum of the maximum payouts of the sessions that are still open.
    pub total_reserved: u64,
    pub bump: u8,
}

impl HouseVault {
    /// The vault with `total_reserved` replaced.
    pub open spec fn with_reserved(self, total: int) -> HouseVault {
        HouseVault { total_reserved: total as u64, ..self }
    }

    /// What the custody balance holds beyond the reservations. Negative where
    /// the ledger has promised more than is there.
    pub open spec fn free_liquidity(&self, vault_balance: u64) -> int {
        vault_balance - self.total_reserved
    }

    /// Whether the vault can take on a session with this maximum payout: its
    /// free liquidity covers the required share of it.
    pub open spec fn can_back(&self, vault_balance: u64, new_max_payout: u64) -> bool {
        self.free_liquidity(vault_balance) >= required_liquidity(new_max_payout)
    }

    /// What the house may take out: the balance beyond the reservations and
    /// the reserve that keeps the vault running.
    pub open spec fn withdraw_allowance_spec(
        &self,
        vault_balance: u64,
        minimum_operating_reserve: u64,
    ) -> int {
        let committed = self.total_reserved + minimum_operating_reserve;
        if vault_balance > committed {
            vault_balance - committed
        } else {
            0
        }
    }

    /// Whether the custody balance covers a payout that is due now.
    pub fn check_solvency(&self, vault_balance: u64, requested_payout: u64) -> (covered: bool)
        ensures
            covered == (vault_balance >= requested_payout),
    {
        vault_balance >= requested_payout
    }

    /// Whether the vault can take on a session with this maximum payout.
    pub fn check_open_solvency(&self, vault_balance: u64, new_max_payout: u64) -> (covered: bool)
        ensures
            covered == self.can_back(vault_balance, new_max_payout),
    {
        if vault_balance < self.total_reserved {
            return false;
        }
        let free: u128 = (vault_balance - self.total_reserved) as u128;
        let share: u128 = RESERVE_COVERAGE_PERCENT as u128;
        assert(share == 100);
        let required: u128 = (new_max_payout as u128) * share / 100;
        free >= required
    }

    /// What the house may take out without touching reserved funds.
    pub fn withdraw_allowance(
        &self,
        vault_balance: u64,
        minimum_operating_reserve: u64,
    ) -> (allowance: u64)
        ensures
            allowance == self.withdraw_allowance_spec(vault_balance, minimum_operating_reserve),
    {
        let committed = self.total_reserved.saturating_add(minimum_operating_reserve);
        vault_balance.saturating_sub(committed)
    }

    /// Sets `amount` aside for a session that is being opened. Fails, and
    /// changes nothing, where the total would not fit in 64 bits.
    pub fn reserve(&mut self, amount: u64) -> (res: Result<(), GameError>)
        ensures
            old(self).total_reserved + amount <= u64::MAX ==> res is Ok
                && *final(self) == old(self).with_reserved(old(self).total_reserved + amount),
            old(self).total_reserved + amount > u64::MAX ==> res == Err::<(), GameError>(
                GameError::Overflow,
            ) && *final(self) == *old(self),
            final(self).total_reserved == reserved_after(
                old(self).total_reserved as int,
                LedgerOp::Reserve(amount),
            ),
    {
        match self.total_reserved.checked_add(amount) {
            Some(total) => {
                self.total_reserved = total;
                Ok(())
            },
            None => Err(GameError::Overflow),
        }
    }

    /// Gives back `amount` when a session ends. Releasing more than is
    /// reserved is an accounting fault: it fails and changes nothing.
    pub fn release(&mut self, amount: u64) -> (res: Result<(), GameError>)
        ensures
            amount <= old(self).total_reserved ==> res is Ok
                && *final(self) == old(self).with_reserved(old(self).total_reserved - amount),
            amount > old(self).total_reserved ==> res == Err::<(), GameError>(
                GameError::InsufficientReservation,
            ) && *final(self) == *old(self),
            final(self).total_reserved == reserved_after(
                old(self).total_reserved as int,
                LedgerOp::Release(amount),
            ),
    {
        if amount > self.total_reserved {
            return Err(GameError::InsufficientReservation);
        }
        self.total_reserved = self.total_reserved - amount;
        Ok(())
    }
}

/// The rules of the game: the survival curve, the growth of the treasure and
/// the bounds on a bet.
#[derive(Clone, Copy, Debug)]
pub struct GameConfig {
    /// Who may change the configuration.
    pub admin: [u8; 32],
    /// Chance of surviving the first dive, in parts per million.
    pub base_survival_ppm: u32,
    /// By how much that chance drops with every further dive.
    pub decay_per_dive_ppm: u32,
    /// The chance never drops below this.
    pub min_survival_ppm: u32,
    /// Each survived dive multiplies the treasure by `num / den`.
    pub treasure_multiplier_num: u16,
    pub treasure_multiplier_den: u16,
    /// The treasure never exceeds this many times the bet.
    pub max_payout_multiplier: u16,
    /// The deepest dive a session may reach.
    pub max_dives: u16,
    /// The smallest bet accepted.
    pub min_bet: u64,
    /// The largest bet accepted; zero stands for no upper bound.
    pub max_bet: u64,
    pub bump: u8,
}

impl GameConfig {
    /// The rules a configuration has to obey.
    pub open spec fn is_valid(&self) -> bool {
        &&& self.treasure_multiplier_den > 0
        &&& self.treasure_multiplier_num > 0
        &&& self.max_payout_multiplier > 0
        &&& self.base_survival_ppm <= PPM_SCALE
        &&& self.min_survival_ppm <= self.base_survival_ppm
        &&& self.decay_per_dive_ppm <= self.base_survival_ppm
        &&& self.max_dives > 0
        &&& (self.max_bet > 0 ==> self.min_bet <= self.max_bet)
    }

    /// The values a configuration starts from, in the order of the fields from
    /// `base_survival_ppm` to `max_bet`: 70% to survive the first dive, 0.8%
    /// less with every further dive but never under 5%, the treasure growing
    /// by 19/10 per dive up to 100 times the bet, 5 dives at most, and bets
    /// from 50 to 100 million.
    pub open spec fn default_values() -> (u32, u32, u32, u16, u16, u16, u16, u64, u64) {
        (
            700_000u32,
            8_000u32,
            50_000u32,
            19u16,
            10u16,
            100u16,
            5u16,
            50_000_000u64,
            100_000_000u64,
        )
    }

    /// The values a configuration starts from.
    pub fn default_config() -> (defaults: (u32, u32, u32, u16, u16, u16, u16, u64, u64))
        ensures
            defaults == Self::default_values(),
    {
        (700_000, 8_000, 50_000, 19, 10, 100, 5, 50_000_000, 100_000_000)
    }

    /// Checks every rule of `is_valid`.
    pub fn validate(&self) -> (res: Result<(), GameError>)
        ensures
            res is Ok <==> self.is_valid(),
            res is Err ==> res == Err::<(), GameError>(GameError::InvalidConfig),
    {
        if self.treasure_multiplier_den == 0 || self.treasure_multiplier_num == 0 {
            return Err(GameError::InvalidConfig);
        }
        if self.max_payout_multiplier == 0 {
            return Err(GameError::InvalidConfig);
        }
        if self.base_survival_ppm > PPM_SCALE {
            return Err(GameError::InvalidConfig);
        }
        if self.min_survival_ppm > self.base_survival_ppm {
            return Err(GameError::InvalidConfig);
        }
        if self.decay_per_dive_ppm > self.base_survival_ppm {
            return Err(GameError::InvalidConfig);
        }
        if self.max_dives == 0 {
            return Err(GameError::InvalidConfig);
        }
        if self.max_bet > 0 && self.min_bet > self.max_bet {
            return Err(GameError::InvalidConfig);
        }
        Ok(())
    }
}

/// One player's run: the stake, what it has grown to, and how deep it went.
#[derive(Clone, Copy, Debug)]
pub struct GameSession {
    /// The player.
    pub user: [u8; 32],
    /// The vault that backs this session.
    pub house_vault: [u8; 32],
    pub status: SessionStatus,
    pub bet_amount: u64,
    /// What the player would receive on cashing out now.
    pub current_treasure: u64,
    /// What the vault has reserved for this session.
    pub max_payout: u64,
    /// The dive the player faces next; the first one is 1.
    pub dive_number: u16,
    pub bump: u8,
    /// The slot in which the session last moved.
    pub last_active_slot: u64,
}

impl GameSession {
    /// The treasure never falls below the bet nor rises above what is
    /// reserved for the session.
    pub open spec fn well_formed(&self) -> bool {
        self.bet_amount <= self.current_treasure <= self.max_payout
    }

    pub open spec fn is_active(&self) -> bool {
        self.status == SessionStatus::Active
    }

    /// The session with its status replaced.
    pub open spec fn with_status(self, status: SessionStatus) -> GameSession {
        GameSession { status, ..self }
    }

    /// The session after a survived dive.
    pub open spec fn after_survival(self, new_treasure: u64, slot: u64) -> GameSession {
        GameSession {
            dive_number: (self.dive_number + 1) as u16,
            current_treasure: new_treasure,
            last_active_slot: slot,
            ..self
        }
    }

    /// The session after a dive with this outcome.
    pub open spec fn advanced(
        self,
        outcome: RoundOutcome,
        new_treasure: u64,
        slot: u64,
    ) -> GameSession {
        match outcome {
            RoundOutcome::Survive => self.after_survival(new_treasure, slot),
            RoundOutcome::Lose => self.with_status(SessionStatus::Lost),
        }
    }

    /// Why `advance` turns a round down, if it does.
    pub open spec fn advance_error(
        &self,
        outcome: RoundOutcome,
        new_treasure: u64,
    ) -> Option<GameError> {
        if !self.is_active() {
            Some(GameError::InvalidSessionStatus)
        } else if outcome == RoundOutcome::Lose {
            None
        } else if self.dive_number == u16::MAX {
            Some(GameError::MaxDivesReached)
        } else if new_treasure < self.current_treasure || new_treasure > self.max_payout {
            Some(GameError::TreasureInvalid)
        } else {
            None
        }
    }

    /// Succeeds on an active session only.
    pub fn ensure_active(&self) -> (res: Result<(), GameError>)
        ensures
            res is Ok <==> self.is_active(),
            res is Err ==> res == Err::<(), GameError>(GameError::InvalidSessionStatus),
    {
        if self.status == SessionStatus::Active {
            Ok(())
        } else {
            Err(GameError::InvalidSessionStatus)
        }
    }

    /// Ends an active session as lost.
    pub fn mark_lost(&mut self) -> (res: Result<(), GameError>)
        ensures
            res is Ok <==> old(self).is_active(),
            res is Ok ==> *final(self) == old(self).with_status(SessionStatus::Lost),
            res is Err ==> res == Err::<(), GameError>(GameError::InvalidSessionStatus)
                && *final(self) == *old(self),
    {
        if self.status != SessionStatus::Active {
            return Err(GameError::InvalidSessionStatus);
        }
        self.status = SessionStatus::Lost;
        Ok(())
    }

    /// Ends an active session as cashed out.
    pub fn mark_cashed_out(&mut self) -> (res: Result<(), GameError>)
        ensures
            res is Ok <==> old(self).is_active(),
            res is Ok ==> *final(self) == old(self).with_status(SessionStatus::CashedOut),
            res is Err ==> res == Err::<(), GameError>(GameError::InvalidSessionStatus)
                && *final(self) == *old(self),
    {
        if self.status != SessionStatus::Active {
            return Err(GameError::InvalidSessionStatus);
        }
        self.status = SessionStatus::CashedOut;
        Ok(())
    }

    /// Applies the outcome of one dive. A lost dive ends the session. A
    /// survived dive moves it one dive deeper with `new_treasure`, which must
    /// neither shrink the treasure nor exceed the session's maximum payout;
    /// a session at the deepest dive that a counter can hold cannot survive
    /// another.
    pub fn advance(
        &mut self,
        outcome: RoundOutcome,
        new_treasure: u64,
        slot: u64,
    ) -> (res: Result<(), GameError>)
        ensures
            match old(self).advance_error(outcome, new_treasure) {
                Some(e) => res == Err::<(), GameError>(e) && *final(self) == *old(self),
                None => res is Ok
                    && *final(self) == old(self).advanced(outcome, new_treasure, slot),
            },
            old(self).well_formed() ==> final(self).well_formed(),
    {
        if self.status != SessionStatus::Active {
            return Err(GameError::InvalidSessionStatus);
        }
        match outcome {
            RoundOutcome::Lose => {
                self.status = SessionStatus::Lost;
                Ok(())
            },
            RoundOutcome::Survive => {
                if self.dive_number == u16::MAX {
                    return Err(GameError::MaxDivesReached);
                }
                if new_treasure < self.current_treasure || new_treasure > self.max_payout {
                    return Err(GameError::TreasureInvalid);
                }
                self.dive_number = self.dive_number + 1;
                self.current_treasure = new_treasure;
                self.last_active_slot = slot;
                Ok(())
            },
        }
    }
}

} // verus!
