//! What the ledger has reserved is, at every moment, the sum of what the
//! open sessions may still be paid. This module states that balance and
//! shows that every operation keeps it.

use vstd::prelude::*;
use crate::game_math::max_payout_spec;
use crate::instructions::cash_out::{cash_out_error, cashed_out_session};
use crate::instructions::clean_expired_session::reclaim_error;
use crate::instructions::lose_session::lose_session_error;
use crate::instructions::play_round::{
    session_after_round, settle_round_error, vault_after_round,
};
use crate::instructions::start_session::{opened_session, start_session_error};
use crate::states::{GameConfig, GameSession, HouseVault, RoundOutcome, SessionStatus};

verus! {

/// One call on the ledger.
pub enum LedgerOp {
    Reserve(u64),
    Release(u64),
}

/// Whether the ledger accepts `op` when `total` is reserved: a reserve must
/// fit in 64 bits, a release must be covered by what is reserved.
pub open spec fn accepts(total: int, op: LedgerOp) -> bool {
    match op {
        LedgerOp::Reserve(amount) => total + amount <= u64::MAX,
        LedgerOp::Release(amount) => amount <= total,
    }
}

/// By how much an accepted `op` changes what is reserved.
pub open spec fn change(op: LedgerOp) -> int {
    match op {
        LedgerOp::Reserve(amount) => amount as int,
        LedgerOp::Release(amount) => -(amount as int),
    }
}

/// What is reserved after `op`: a refused call changes nothing.
pub open spec fn reserved_after(total: int, op: LedgerOp) -> int {
    if accepts(total, op) {
        total + change(op)
    } else {
        total
    }
}

/// What is reserved after the calls `ops`, made in order, starting from
/// `total`.
pub open spec fn reserved_after_all(total: int, ops: Seq<LedgerOp>) -> int
    decreases ops.len(),
{
    if ops.len() == 0 {
        total
    } else {
        reserved_after(reserved_after_all(total, ops.drop_last()), ops.last())
    }
}

/// The reserves that were accepted among `ops`, less the releases that were
/// accepted: what is still outstanding of the reservations made by `ops`.
pub open spec fn outstanding(total: int, ops: Seq<LedgerOp>) -> int
    decreases ops.len(),
{
    if ops.len() == 0 {
        0
    } else if accepts(reserved_after_all(total, ops.drop_last()), ops.last()) {
        outstanding(total, ops.drop_last()) + change(ops.last())
    } else {
        outstanding(total, ops.drop_last())
    }
}

/// Whatever calls are made, what is reserved afterwards is what was reserved
/// before plus the reservations still outstanding, and it stays within 64
/// bits and never drops below zero.
pub proof fn lemma_ledger_conservation(total: u64, ops: Seq<LedgerOp>)
    ensures
        reserved_after_all(total as int, ops) == total + outstanding(total as int, ops),
        0 <= reserved_after_all(total as int, ops) <= u64::MAX,
    decreases ops.len(),
{
    if ops.len() > 0 {
        lemma_ledger_conservation(total, ops.drop_last());
    }
}

/// A release of more than is reserved changes nothing.
pub proof fn lemma_release_is_never_clamped(total: u64, amount: u64)
    requires
        amount > total,
    ensures
        !accepts(total as int, LedgerOp::Release(amount)),
        reserved_after(total as int, LedgerOp::Release(amount)) == total,
{
}

/// What one session weighs on the ledger: its maximum payout while it is
/// active, nothing once it has ended.
pub open spec fn liability(session: GameSession) -> int {
    if session.is_active() {
        session.max_payout as int
    } else {
        0
    }
}

/// What the sessions weigh on the ledger together.
pub open spec fn total_liability(sessions: Seq<GameSession>) -> int
    decreases sessions.len(),
{
    if sessions.len() == 0 {
        0
    } else {
        total_liability(sessions.drop_last()) + liability(sessions.last())
    }
}

/// The vault has reserved exactly what its sessions weigh.
pub open spec fn balanced(house_vault: HouseVault, sessions: Seq<GameSession>) -> bool {
    house_vault.total_reserved == total_liability(sessions)
}

/// Replacing one session changes the total by the difference of the two
/// liabilities, and no session weighs more than all of them together.
pub proof fn lemma_liability_of_update(
    sessions: Seq<GameSession>,
    index: int,
    replacement: GameSession,
)
    requires
        0 <= index < sessions.len(),
    ensures
        total_liability(sessions.update(index, replacement)) == total_liability(sessions)
            - liability(sessions[index]) + liability(replacement),
        0 <= liability(sessions[index]) <= total_liability(sessions),
    decreases sessions.len(),
{
    let updated = sessions.update(index, replacement);
    lemma_liability_non_negative(sessions.drop_last());
    if index == sessions.len() - 1 {
        assert(updated.drop_last() =~= sessions.drop_last());
    } else {
        assert(updated.drop_last() =~= sessions.drop_last().update(index, replacement));
        lemma_liability_of_update(sessions.drop_last(), index, replacement);
    }
}

/// No set of sessions weighs less than nothing.
pub proof fn lemma_liability_non_negative(sessions: Seq<GameSession>)
    ensures
        0 <= total_liability(sessions),
    decreases sessions.len(),
{
    if sessions.len() > 0 {
        lemma_liability_non_negative(sessions.drop_last());
    }
}

/// Opening a session keeps the ledger balanced: the vault reserves what the
/// new session weighs.
pub proof fn lemma_open_keeps_balance(
    config: &GameConfig,
    house_vault: HouseVault,
    sessions: Seq<GameSession>,
    vault_balance: u64,
    user: [u8; 32],
    vault_key: [u8; 32],
    bump: u8,
    bet_amount: u64,
    slot: u64,
)
    requires
        balanced(house_vault, sessions),
        start_session_error(config, &house_vault, vault_balance, bet_amount) is None,
    ensures
        balanced(
            house_vault.with_reserved(
                house_vault.total_reserved + max_payout_spec(config, bet_amount),
            ),
            sessions.push(opened_session(config, user, vault_key, bump, bet_amount, slot)),
        ),
{
    let opened = opened_session(config, user, vault_key, bump, bet_amount, slot);
    assert(sessions.push(opened).drop_last() =~= sessions);
}

/// In a balanced ledger the reservation of an active session is always
/// there to be released, and ending the session while releasing it keeps the
/// ledger balanced.
pub proof fn lemma_close_keeps_balance(
    house_vault: HouseVault,
    sessions: Seq<GameSession>,
    index: int,
    ended: GameSession,
)
    requires
        balanced(house_vault, sessions),
        0 <= index < sessions.len(),
        sessions[index].is_active(),
        !ended.is_active(),
    ensures
        sessions[index].max_payout <= house_vault.total_reserved,
        balanced(
            house_vault.with_reserved(house_vault.total_reserved - sessions[index].max_payout),
            sessions.update(index, ended),
        ),
{
    lemma_liability_of_update(sessions, index, ended);
}

/// A session that moves on without ending, its maximum payout unchanged,
/// leaves the ledger balanced as it is.
pub proof fn lemma_survival_keeps_balance(
    house_vault: HouseVault,
    sessions: Seq<GameSession>,
    index: int,
    moved: GameSession,
)
    requires
        balanced(house_vault, sessions),
        0 <= index < sessions.len(),
        sessions[index].is_active(),
        moved.is_active(),
        moved.max_payout == sessions[index].max_payout,
    ensures
        balanced(house_vault, sessions.update(index, moved)),
{
    lemma_liability_of_update(sessions, index, moved);
}

/// Settling a round keeps the ledger balanced, whichever way the dive went.
pub proof fn lemma_round_keeps_balance(
    config: &GameConfig,
    house_vault: HouseVault,
    sessions: Seq<GameSession>,
    index: int,
    outcome: RoundOutcome,
    slot: u64,
)
    requires
        balanced(house_vault, sessions),
        0 <= index < sessions.len(),
        settle_round_error(config, &sessions[index], &house_vault, outcome) is None,
    ensures
        balanced(
            vault_after_round(sessions[index], house_vault, outcome),
            sessions.update(index, session_after_round(config, sessions[index], outcome, slot)),
        ),
{
    let after = session_after_round(config, sessions[index], outcome, slot);
    match outcome {
        RoundOutcome::Survive => {
            lemma_survival_keeps_balance(house_vault, sessions, index, after);
        },
        RoundOutcome::Lose => {
            lemma_close_keeps_balance(house_vault, sessions, index, after);
        },
    }
}

/// Cashing a session out keeps the ledger balanced.
pub proof fn lemma_cash_out_keeps_balance(
    house_vault: HouseVault,
    sessions: Seq<GameSession>,
    index: int,
    vault_balance: u64,
    slot: u64,
)
    requires
        balanced(house_vault, sessions),
        0 <= index < sessions.len(),
        cash_out_error(&sessions[index], &house_vault, vault_balance) is None,
    ensures
        balanced(
            house_vault.with_reserved(house_vault.total_reserved - sessions[index].max_payout),
            sessions.update(index, cashed_out_session(sessions[index], slot)),
        ),
{
    lemma_close_keeps_balance(
        house_vault,
        sessions,
        index,
        cashed_out_session(sessions[index], slot),
    );
}

/// Giving a session up keeps the ledger balanced.
pub proof fn lemma_lose_keeps_balance(
    house_vault: HouseVault,
    sessions: Seq<GameSession>,
    index: int,
)
    requires
        balanced(house_vault, sessions),
        0 <= index < sessions.len(),
        lose_session_error(&sessions[index], &house_vault) is None,
    ensures
        balanced(
            house_vault.with_reserved(house_vault.total_reserved - sessions[index].max_payout),
            sessions.update(index, sessions[index].with_status(SessionStatus::Lost)),
        ),
{
    lemma_close_keeps_balance(
        house_vault,
        sessions,
        index,
        sessions[index].with_status(SessionStatus::Lost),
    );
}

/// Reclaiming an idle session keeps the ledger balanced.
pub proof fn lemma_reclaim_keeps_balance(
    house_vault: HouseVault,
    sessions: Seq<GameSession>,
    index: int,
    now: u64,
    timeout_window: u64,
)
    requires
        balanced(house_vault, sessions),
        0 <= index < sessions.len(),
        reclaim_error(&sessions[index], &house_vault, now, timeout_window) is None,
    ensures
        balanced(
            house_vault.with_reserved(house_vault.total_reserved - sessions[index].max_payout),
            sessions.update(index, sessions[index].with_status(SessionStatus::Lost)),
        ),
{
    lemma_close_keeps_balance(
        house_vault,
        sessions,
        index,
        sessions[index].with_status(SessionStatus::Lost),
    );
}

} // verus!
