//! How much edge a trade must show, given the share of the daily allowance
//! that is left.

use crate::config::StrategyConfig;
use crate::fixed::SCALE;
use crate::metamask::StrategyMode;
use crate::types::{ArbitrageSignal, Side};
use vstd::prelude::*;

verus! {

/// The mode for `remaining` out of `daily_limit`: conservative where the
/// share left is below the conservative threshold, or where there is no
/// limit at all; aggressive where it is above the aggressive threshold;
/// normal in between.
pub open spec fn mode_under(
    remaining: u64,
    daily_limit: u64,
    strategy: StrategyConfig,
) -> StrategyMode {
    if daily_limit == 0 {
        StrategyMode::Conservative
    } else if remaining * SCALE < strategy.conservative_threshold * daily_limit {
        StrategyMode::Conservative
    } else if remaining * SCALE > strategy.aggressive_threshold * daily_limit {
        StrategyMode::Aggressive
    } else {
        StrategyMode::Normal
    }
}

/// The minimum edge that a mode asks for.
pub open spec fn min_edge_in(mode: StrategyMode, strategy: StrategyConfig) -> u64 {
    match mode {
        StrategyMode::Conservative => strategy.conservative_min_edge,
        StrategyMode::Normal => strategy.normal_min_edge,
        StrategyMode::Aggressive => strategy.aggressive_min_edge,
    }
}

/// The name of a mode.
pub open spec fn mode_name(mode: StrategyMode) -> Seq<char> {
    match mode {
        StrategyMode::Conservative => "Conservative"@,
        StrategyMode::Normal => "Normal"@,
        StrategyMode::Aggressive => "Aggressive"@,
    }
}

/// Whether a signal is acted on: its spread is not below the minimum edge,
/// it says to buy, and the allowance left covers both legs of `leg_size`.
pub open spec fn actionable(
    signal: ArbitrageSignal,
    min_edge: u64,
    remaining: u64,
    leg_size: u64,
) -> bool {
    signal.spread >= min_edge && signal.recommended_side == Side::Buy && remaining >= 2
        * leg_size
}

/// The mode for `remaining` out of `daily_limit`.
pub fn strategy_mode(
    remaining: u64,
    daily_limit: u64,
    strategy: &StrategyConfig,
) -> (mode: StrategyMode)
    ensures
        mode == mode_under(remaining, daily_limit, *strategy),
{
    if daily_limit == 0 {
        return StrategyMode::Conservative;
    }
    proof {
        crate::fixed::lemma_product_fits(remaining, SCALE);
        crate::fixed::lemma_product_fits(strategy.conservative_threshold, daily_limit);
        crate::fixed::lemma_product_fits(strategy.aggressive_threshold, daily_limit);
    }
    let share: u128 = remaining as u128 * SCALE as u128;
    let limit = daily_limit as u128;
    if share < strategy.conservative_threshold as u128 * limit {
        StrategyMode::Conservative
    } else if share > strategy.aggressive_threshold as u128 * limit {
        StrategyMode::Aggressive
    } else {
        StrategyMode::Normal
    }
}

/// The minimum edge required with `remaining` left out of `daily_limit`.
pub fn get_min_edge_for_allowance(
    remaining: u64,
    daily_limit: u64,
    strategy: &StrategyConfig,
) -> (edge: u64)
    ensures
        edge == min_edge_in(mode_under(remaining, daily_limit, *strategy), *strategy),
{
    match strategy_mode(remaining, daily_limit, strategy) {
        StrategyMode::Conservative => strategy.conservative_min_edge,
        StrategyMode::Normal => strategy.normal_min_edge,
        StrategyMode::Aggressive => strategy.aggressive_min_edge,
    }
}

/// The name of the mode with `remaining` left out of `daily_limit`.
pub fn get_strategy_mode_name(
    remaining: u64,
    daily_limit: u64,
    strategy: &StrategyConfig,
) -> (name: &'static str)
    ensures
        name@ == mode_name(mode_under(remaining, daily_limit, *strategy)),
{
    match strategy_mode(remaining, daily_limit, strategy) {
        StrategyMode::Conservative => "Conservative",
        StrategyMode::Normal => "Normal",
        StrategyMode::Aggressive => "Aggressive",
    }
}

/// Whether to act on `signal`, given the minimum edge, the allowance left
/// and the size of each leg.
pub fn is_actionable(
    signal: &ArbitrageSignal,
    min_edge: u64,
    remaining: u64,
    leg_size: u64,
) -> (go: bool)
    ensures
        go == actionable(*signal, min_edge, remaining, leg_size),
{
    let is_buy = match signal.recommended_side {
        Side::Buy => true,
        Side::Sell => false,
    };
    signal.spread >= min_edge && is_buy && remaining as u128 >= 2 * (leg_size as u128)
}

} // verus!
