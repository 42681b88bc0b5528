//! The curves of the game: how the chance of survival falls and how the
//! treasure grows from dive to dive.

use vstd::prelude::*;
use vstd::arithmetic::div_mod::{lemma_div_is_ordered, lemma_div_multiples_vanish};
use crate::states::{GameConfig, PPM_SCALE};

verus! {

/// Chance of surviving dive `dive_number`, in parts per million: the base
/// chance lowered by one decay step for every dive after the first, but never
/// below the configured minimum. Dive 0 counts as dive 1.
pub open spec fn survival_probability_spec(config: &GameConfig, dive_number: u16) -> int {
    let steps: int = if dive_number == 0 {
        0
    } else {
        dive_number - 1
    };
    let lowered = config.base_survival_ppm - steps * config.decay_per_dive_ppm;
    if lowered > config.min_survival_ppm {
        lowered
    } else {
        config.min_survival_ppm as int
    }
}

/// The most a session with this bet can pay: the bet times the payout
/// multiplier, held to 64 bits.
pub open spec fn max_payout_spec(config: &GameConfig, bet_amount: u64) -> int {
    let product = bet_amount * config.max_payout_multiplier;
    if product > u64::MAX {
        u64::MAX as int
    } else {
        product
    }
}

/// One survived dive: `amount` times `num / den`, rounded down and held to
/// `cap`. A zero denominator yields the cap.
pub open spec fn grow_once(config: &GameConfig, cap: int, amount: int) -> int {
    if config.treasure_multiplier_den == 0 {
        cap
    } else {
        let grown = amount * config.treasure_multiplier_num
            / (config.treasure_multiplier_den as int);
        if grown >= cap {
            cap
        } else {
            grown
        }
    }
}

/// The treasure at dive `dive_number`: the bet at dive 0, then one growth
/// step per dive. Once a dive has reached the cap, every later dive stays
/// there.
pub open spec fn treasure_spec(config: &GameConfig, bet_amount: u64, dive_number: nat) -> int
    decreases dive_number,
{
    if dive_number == 0 {
        bet_amount as int
    } else {
        let cap = max_payout_spec(config, bet_amount);
        let before = treasure_spec(config, bet_amount, (dive_number - 1) as nat);
        if dive_number >= 2 && before >= cap {
            cap
        } else {
            grow_once(config, cap, before)
        }
    }
}

/// Whether the search for the deepest useful dive ends at `dive_number`:
/// the treasure has reached the cap there, or the configuration allows no
/// deeper dive.
pub open spec fn search_ends_at(config: &GameConfig, bet_amount: u64, dive_number: nat) -> bool {
    treasure_spec(config, bet_amount, dive_number) >= max_payout_spec(config, bet_amount)
        || dive_number >= config.max_dives
}

/// The survival chance lies between the configured minimum and the larger of
/// base and minimum; under a valid configuration it is at most one million.
pub proof fn lemma_survival_in_range(config: &GameConfig, dive_number: u16)
    ensures
        config.min_survival_ppm <= survival_probability_spec(config, dive_number),
        survival_probability_spec(config, dive_number) <= config.base_survival_ppm
            || survival_probability_spec(config, dive_number) == config.min_survival_ppm,
        config.is_valid() ==> survival_probability_spec(config, dive_number) <= PPM_SCALE,
{
    let steps: int = if dive_number == 0 {
        0
    } else {
        dive_number - 1
    };
    assert(steps * config.decay_per_dive_ppm >= 0) by (nonlinear_arith)
        requires
            steps >= 0,
            config.decay_per_dive_ppm >= 0,
    ;
}

/// A deeper dive is never more likely to be survived.
pub proof fn lemma_survival_non_increasing(config: &GameConfig, earlier: u16, later: u16)
    requires
        earlier <= later,
    ensures
        survival_probability_spec(config, later) <= survival_probability_spec(config, earlier),
{
    let first: int = if earlier == 0 {
        0
    } else {
        earlier - 1
    };
    let second: int = if later == 0 {
        0
    } else {
        later - 1
    };
    assert(first * config.decay_per_dive_ppm <= second * config.decay_per_dive_ppm)
        by (nonlinear_arith)
        requires
            first <= second,
            config.decay_per_dive_ppm >= 0,
    ;
}

/// A treasure is never negative.
pub proof fn lemma_treasure_non_negative(config: &GameConfig, bet_amount: u64, dive_number: nat)
    ensures
        0 <= treasure_spec(config, bet_amount, dive_number),
    decreases dive_number,
{
    if dive_number > 0 {
        let before = treasure_spec(config, bet_amount, (dive_number - 1) as nat);
        lemma_treasure_non_negative(config, bet_amount, (dive_number - 1) as nat);
        assert(bet_amount * config.max_payout_multiplier >= 0) by (nonlinear_arith);
        if config.treasure_multiplier_den > 0 {
            lemma_growth_bounds(
                before,
                config.treasure_multiplier_num as int,
                config.treasure_multiplier_den as int,
            );
        }
    }
}

/// After the first dive the treasure is at most the maximum payout; with a
/// payout multiplier of at least one the bet itself is, too.
pub proof fn lemma_treasure_within_cap(config: &GameConfig, bet_amount: u64, dive_number: nat)
    requires
        dive_number >= 1 || config.max_payout_multiplier >= 1,
    ensures
        treasure_spec(config, bet_amount, dive_number) <= max_payout_spec(config, bet_amount),
{
    if dive_number == 0 {
        assert(bet_amount * config.max_payout_multiplier >= bet_amount) by (nonlinear_arith)
            requires
                config.max_payout_multiplier >= 1,
                bet_amount >= 0,
        ;
    }
}

/// Once a dive has reached the maximum payout, every later dive pays exactly
/// the maximum payout.
pub proof fn lemma_treasure_stays_capped(
    config: &GameConfig,
    bet_amount: u64,
    reached: nat,
    later: nat,
)
    requires
        1 <= reached <= later,
        treasure_spec(config, bet_amount, reached) >= max_payout_spec(config, bet_amount),
    ensures
        treasure_spec(config, bet_amount, later) == max_payout_spec(config, bet_amount),
    decreases later - reached,
{
    if later == reached {
        lemma_treasure_within_cap(config, bet_amount, reached);
    } else {
        lemma_treasure_stays_capped(config, bet_amount, reached, (later - 1) as nat);
    }
}

/// Rounding `amount * num / den` down: with `num >= den` nothing is lost, and
/// where `amount * (num - den)` makes up a whole `den`, at least one is gained.
proof fn lemma_growth_bounds(amount: int, num: int, den: int)
    requires
        0 <= amount,
        0 <= num,
        0 < den,
    ensures
        0 <= amount * num / den,
        num >= den ==> amount <= amount * num / den,
        amount * (num - den) >= den ==> amount + 1 <= amount * num / den,
{
    assert(0 <= amount * num) by (nonlinear_arith)
        requires
            0 <= amount,
            0 <= num,
    ;
    lemma_div_is_ordered(0, amount * num, den);
    if num >= den {
        assert(amount * den <= amount * num) by (nonlinear_arith)
            requires
                0 <= amount,
                den <= num,
        ;
        lemma_div_is_ordered(amount * den, amount * num, den);
        lemma_div_multiples_vanish(amount, den);
        assert(den * amount == amount * den) by (nonlinear_arith);
    }
    if amount * (num - den) >= den {
        assert((amount + 1) * den <= amount * num) by (nonlinear_arith)
            requires
                amount * (num - den) >= den,
        ;
        lemma_div_is_ordered((amount + 1) * den, amount * num, den);
        lemma_div_multiples_vanish(amount + 1, den);
        assert(den * (amount + 1) == (amount + 1) * den) by (nonlinear_arith);
    }
}

/// Below the cap, no dive has lost anything of the bet, as long as the
/// multiplier is at least one.
proof fn lemma_treasure_keeps_bet(config: &GameConfig, bet_amount: u64, dive_number: nat)
    requires
        config.treasure_multiplier_den > 0,
        config.treasure_multiplier_num >= config.treasure_multiplier_den,
        treasure_spec(config, bet_amount, dive_number) < max_payout_spec(config, bet_amount),
    ensures
        bet_amount <= treasure_spec(config, bet_amount, dive_number),
    decreases dive_number,
{
    if dive_number > 0 {
        let before = treasure_spec(config, bet_amount, (dive_number - 1) as nat);
        lemma_treasure_non_negative(config, bet_amount, (dive_number - 1) as nat);
        lemma_growth_bounds(
            before,
            config.treasure_multiplier_num as int,
            config.treasure_multiplier_den as int,
        );
        if dive_number >= 2 {
            lemma_treasure_keeps_bet(config, bet_amount, (dive_number - 1) as nat);
        }
    }
}

/// With a multiplier of at least one, the treasure never shrinks from one
/// dive to the next.
pub proof fn lemma_treasure_non_decreasing(config: &GameConfig, bet_amount: u64, dive_number: nat)
    requires
        config.is_valid(),
        config.treasure_multiplier_num >= config.treasure_multiplier_den,
    ensures
        treasure_spec(config, bet_amount, dive_number) <= treasure_spec(
            config,
            bet_amount,
            dive_number + 1,
        ),
{
    let now = treasure_spec(config, bet_amount, dive_number);
    lemma_treasure_non_negative(config, bet_amount, dive_number);
    lemma_treasure_within_cap(config, bet_amount, dive_number);
    lemma_growth_bounds(
        now,
        config.treasure_multiplier_num as int,
        config.treasure_multiplier_den as int,
    );
}

/// With a multiplier of at least one, a deeper dive never pays less.
pub proof fn lemma_treasure_monotonic(
    config: &GameConfig,
    bet_amount: u64,
    earlier: nat,
    later: nat,
)
    requires
        config.is_valid(),
        config.treasure_multiplier_num >= config.treasure_multiplier_den,
        earlier <= later,
    ensures
        treasure_spec(config, bet_amount, earlier) <= treasure_spec(config, bet_amount, later),
    decreases later - earlier,
{
    if earlier < later {
        lemma_treasure_monotonic(config, bet_amount, earlier, (later - 1) as nat);
        lemma_treasure_non_decreasing(config, bet_amount, (later - 1) as nat);
    }
}

/// While the treasure is below the maximum payout, the next dive pays
/// strictly more, provided that the first growth step gains at least one
/// unit: `bet_amount * (num - den) >= den`. Without that the rounding can
/// swallow the gain and the treasure stalls.
pub proof fn lemma_treasure_strictly_increasing(
    config: &GameConfig,
    bet_amount: u64,
    dive_number: nat,
)
    requires
        config.treasure_multiplier_den > 0,
        bet_amount * (config.treasure_multiplier_num - config.treasure_multiplier_den)
            >= config.treasure_multiplier_den,
        treasure_spec(config, bet_amount, dive_number) < max_payout_spec(config, bet_amount),
    ensures
        treasure_spec(config, bet_amount, dive_number) < treasure_spec(
            config,
            bet_amount,
            dive_number + 1,
        ),
{
    let num = config.treasure_multiplier_num as int;
    let den = config.treasure_multiplier_den as int;
    let now = treasure_spec(config, bet_amount, dive_number);
    assert(num > den) by (nonlinear_arith)
        requires
            bet_amount * (num - den) >= den,
            den > 0,
            bet_amount >= 0,
    ;
    lemma_treasure_keeps_bet(config, bet_amount, dive_number);
    assert(now * (num - den) >= den) by (nonlinear_arith)
        requires
            bet_amount * (num - den) >= den,
            now >= bet_amount,
            num > den,
    ;
    lemma_growth_bounds(now, num, den);
}

/// The shape of the treasure curve under a valid configuration and a bet
/// whose first growth step gains at least one unit: the treasure never
/// exceeds the maximum payout, rises strictly from dive to dive while it is
/// below, and stays at the maximum payout once it is there.
pub proof fn lemma_treasure_rises_to_cap(config: &GameConfig, bet_amount: u64, dive_number: nat)
    requires
        config.is_valid(),
        bet_amount * (config.treasure_multiplier_num - config.treasure_multiplier_den)
            >= config.treasure_multiplier_den,
    ensures
        treasure_spec(config, bet_amount, dive_number) <= max_payout_spec(config, bet_amount),
        treasure_spec(config, bet_amount, dive_number) < max_payout_spec(config, bet_amount)
            ==> treasure_spec(config, bet_amount, dive_number) < treasure_spec(
            config,
            bet_amount,
            dive_number + 1,
        ),
        treasure_spec(config, bet_amount, dive_number) == max_payout_spec(config, bet_amount)
            ==> treasure_spec(config, bet_amount, dive_number + 1) == max_payout_spec(
            config,
            bet_amount,
        ),
{
    let num = config.treasure_multiplier_num as int;
    let den = config.treasure_multiplier_den as int;
    let cap = max_payout_spec(config, bet_amount);
    let now = treasure_spec(config, bet_amount, dive_number);
    lemma_treasure_within_cap(config, bet_amount, dive_number);
    if now < cap {
        lemma_treasure_strictly_increasing(config, bet_amount, dive_number);
    } else {
        assert(num > den) by (nonlinear_arith)
            requires
                bet_amount * (num - den) >= den,
                den > 0,
                bet_amount >= 0,
        ;
        lemma_treasure_non_decreasing(config, bet_amount, dive_number);
        lemma_treasure_within_cap(config, bet_amount, dive_number + 1);
    }
}

/// The chance of surviving dive `dive_number`, in parts per million.
pub fn survival_probability_bps(config: &GameConfig, dive_number: u16) -> (ppm: u32)
    ensures
        ppm == survival_probability_spec(config, dive_number),
        config.min_survival_ppm <= ppm,
        config.is_valid() ==> ppm <= PPM_SCALE,
{
    let steps: u64 = if dive_number == 0 {
        0
    } else {
        (dive_number - 1) as u64
    };
    let decay: u64 = config.decay_per_dive_ppm as u64;
    assert(steps * decay <= 0xffff * 0xffff_ffff) by (nonlinear_arith)
        requires
            steps <= 0xffff,
            decay <= 0xffff_ffff,
    ;
    let reduction: u64 = steps * decay;
    let base: u64 = config.base_survival_ppm as u64;
    let lowered: u32 = if reduction >= base {
        0
    } else {
        (base - reduction) as u32
    };
    proof {
        lemma_survival_in_range(config, dive_number);
    }
    if lowered > config.min_survival_ppm {
        lowered
    } else {
        config.min_survival_ppm
    }
}

/// The most a session with this bet can pay.
pub fn max_payout_for_bet(config: &GameConfig, bet_amount: u64) -> (max: u64)
    ensures
        max == max_payout_spec(config, bet_amount),
{
    match bet_amount.checked_mul(config.max_payout_multiplier as u64) {
        Some(product) => product,
        None => u64::MAX,
    }
}

/// The treasure a session with this bet holds at dive `dive_number`.
pub fn treasure_for_dive(config: &GameConfig, bet_amount: u64, dive_number: u16) -> (treasure: u64)
    ensures
        treasure == treasure_spec(config, bet_amount, dive_number as nat),
        dive_number >= 1 || config.max_payout_multiplier >= 1 ==> treasure <= max_payout_spec(
            config,
            bet_amount,
        ),
{
    if dive_number == 0 {
        proof {
            if config.max_payout_multiplier >= 1 {
                lemma_treasure_within_cap(config, bet_amount, 0);
            }
        }
        return bet_amount;
    }
    let max = max_payout_for_bet(config, bet_amount);
    let num: u128 = config.treasure_multiplier_num as u128;
    let den: u128 = config.treasure_multiplier_den as u128;
    let mut result: u128 = bet_amount as u128;
    let mut dive: u16 = 0;
    while dive < dive_number
        invariant
            dive <= dive_number,
            max == max_payout_spec(config, bet_amount),
            num == config.treasure_multiplier_num,
            den == config.treasure_multiplier_den,
            result == treasure_spec(config, bet_amount, dive as nat),
            result <= u64::MAX,
            dive >= 1 ==> result < max,
        decreases dive_number - dive,
    {
        if den == 0 {
            proof {
                lemma_treasure_stays_capped(
                    config,
                    bet_amount,
                    (dive + 1) as nat,
                    dive_number as nat,
                );
            }
            return max;
        }
        assert(result * num <= u64::MAX * 0xffff) by (nonlinear_arith)
            requires
                result <= u64::MAX,
                num <= 0xffff,
        ;
        let grown: u128 = result * num / den;
        if grown >= max as u128 {
            proof {
                lemma_treasure_stays_capped(
                    config,
                    bet_amount,
                    (dive + 1) as nat,
                    dive_number as nat,
                );
            }
            return max;
        }
        result = grown;
        dive = dive + 1;
    }
    result as u64
}

/// The first dive, counted from 1, at which the treasure reaches the maximum
/// payout, or the deepest dive the configuration allows where that comes
/// first.
pub fn max_dives_for_bet(config: &GameConfig, bet_amount: u64) -> (dive: u16)
    ensures
        dive >= 1,
        search_ends_at(config, bet_amount, dive as nat),
        forall|d: nat| 1 <= d < dive ==> !search_ends_at(config, bet_amount, d),
{
    let max = max_payout_for_bet(config, bet_amount);
    let num: u128 = config.treasure_multiplier_num as u128;
    let den: u128 = config.treasure_multiplier_den as u128;
    let mut before: u128 = bet_amount as u128;
    let mut dive: u16 = 1;
    loop
        invariant
            dive >= 1,
            max == max_payout_spec(config, bet_amount),
            num == config.treasure_multiplier_num,
            den == config.treasure_multiplier_den,
            before == treasure_spec(config, bet_amount, (dive - 1) as nat),
            before <= u64::MAX,
            dive >= 2 ==> before < max,
            forall|d: nat| 1 <= d < dive ==> !search_ends_at(config, bet_amount, d),
        decreases u16::MAX - dive,
    {
        assert(before * num <= u64::MAX * 0xffff) by (nonlinear_arith)
            requires
                before <= u64::MAX,
                num <= 0xffff,
        ;
        if den == 0 || before * num / den >= max as u128 || dive >= config.max_dives {
            return dive;
        }
        before = before * num / den;
        dive = dive + 1;
    }
}

} // verus!
