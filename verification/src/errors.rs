//! The kinds of rejection that an operation can report.

use vstd::prelude::*;

verus! {

/// Why an operation was turned down. A rejected operation changes nothing.
///
/// `RoundMismatch`, `InvalidSlotHash` and `VaultCapacityExceeded` are for the
/// program around this library: no operation of the library reports them.
/// They keep their places so that the kinds stay in a fixed order.
#[derive(Clone, Copy, Debug, PartialEq, Eq, Structural)]
pub enum GameError {
    /// The house vault is locked.
    HouseLocked,
    /// The session is no longer active.
    InvalidSessionStatus,
    /// The bet lies outside the configured bounds.
    InvalidBetAmount,
    /// A round was presented out of sequence.
    RoundMismatch,
    /// A treasure would shrink, or exceed what was reserved for the session.
    TreasureInvalid,
    /// The vault does not hold enough to back the request.
    InsufficientVaultBalance,
    /// A sum does not fit in 64 bits.
    Overflow,
    /// The treasure does not exceed the bet, so there is nothing to cash out.
    InsufficientTreasure,
    /// The configuration breaks one of its rules.
    InvalidConfig,
    /// The session has used up its dives.
    MaxDivesReached,
    /// No usable slot hash was supplied.
    InvalidSlotHash,
    /// The session has not been idle for long enough.
    SessionNotExpired,
    /// The vault still has funds reserved.
    VaultHasReservedFunds,
    /// The vault cannot back another session.
    VaultCapacityExceeded,
    /// More was to be released than the vault has reserved.
    InsufficientReservation,
}

} // verus!
