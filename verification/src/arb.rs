//! Scanning market snapshots for arbitrage signals and judging whether a
//! signal is worth trading.

use crate::constraint::{deviates, signal_for, ConstraintChecker};
use crate::fixed::{distance, mul_scaled, scaled_product, SCALE};
use crate::types::{
    balanced, price_total, spread_of, ArbitrageSignal, Market, Side, BALANCE_TOLERANCE,
};
use vstd::prelude::*;

verus! {

/// Arbitrage detector.
#[derive(Debug, Clone, Copy)]
pub struct ArbitrageDetector {
    pub constraint_checker: ConstraintChecker,
    /// A trade is taken only where its expected profit is strictly above this.
    pub min_profit_threshold: i64,
}

/// Whether a market gives rise to a signal: it is live, takes orders, and
/// deviates by strictly more than `threshold`.
pub open spec fn flagged(market: Market, threshold: u64) -> bool {
    market.active && market.accepting_orders && deviates(market.outcome_prices@, threshold)
}

/// The signals that `markets` give rise to, one for each flagged market, in
/// the order given.
pub open spec fn signals_of(markets: Seq<Market>, threshold: u64) -> Seq<ArbitrageSignal>
    decreases markets.len(),
{
    if markets.len() == 0 {
        Seq::empty()
    } else if flagged(markets.last(), threshold) {
        signals_of(markets.drop_last(), threshold).push(signal_for(markets.last()))
    } else {
        signals_of(markets.drop_last(), threshold)
    }
}

/// Expected profit of trading `size` on a signal: the gross edge, less the
/// taker fee on both legs, less the slippage allowance.
pub open spec fn profit_estimate(
    edge: u64,
    reference_price: u64,
    size: u64,
    fee_rate: u64,
    slippage: u64,
) -> int {
    scaled_product(edge as int, size as int) - 2 * scaled_product(
        scaled_product(size as int, reference_price as int),
        fee_rate as int,
    ) - scaled_product(size as int, slippage as int)
}

impl ArbitrageDetector {
    pub fn new(min_spread: u64, min_profit: i64) -> (detector: Self)
        ensures
            detector.constraint_checker.min_spread_threshold == min_spread,
            detector.min_profit_threshold == min_profit,
    {
        Self {
            constraint_checker: ConstraintChecker::new(min_spread),
            min_profit_threshold: min_profit,
        }
    }

    /// One signal for each live, order-taking market whose spread is strictly
    /// above the minimum, in the order of `markets`.
    pub fn scan(&self, markets: &[Market]) -> (signals: Vec<ArbitrageSignal>)
        ensures
            signals@ == signals_of(markets@, self.constraint_checker.min_spread_threshold),
    {
        let ghost threshold = self.constraint_checker.min_spread_threshold;
        let mut signals: Vec<ArbitrageSignal> = Vec::new();
        let mut i: usize = 0;
        while i < markets.len()
            invariant
                i <= markets.len(),
                threshold == self.constraint_checker.min_spread_threshold,
                signals@ == signals_of(markets@.take(i as int), threshold),
            decreases markets.len() - i,
        {
            let market = &markets[i];
            proof {
                assert(markets@.take(i + 1).drop_last() =~= markets@.take(i as int));
                assert(markets@.take(i + 1).last() == *market);
            }
            if market.active && market.accepting_orders {
                match self.constraint_checker.check_violation(market) {
                    Some(signal) => {
                        signals.push(signal);
                    },
                    None => {},
                }
            }
            i = i + 1;
        }
        proof {
            assert(markets@.take(i as int) =~= markets@);
        }
        signals
    }

    /// Expected profit of trading `size` on `signal` after costs.
    pub fn expected_profit(
        &self,
        signal: &ArbitrageSignal,
        size: u64,
        fee_rate: u64,
        slippage: u64,
    ) -> (profit: i128)
        ensures
            profit as int == profit_estimate(
                signal.edge,
                signal.yes_price,
                size,
                fee_rate,
                slippage,
            ),
    {
        let gross = mul_scaled(signal.edge, size);
        let fee_per_leg = mul_scaled(mul_scaled(size, signal.yes_price), fee_rate);
        let slippage_cost = mul_scaled(size, slippage);
        gross as i128 - 2 * (fee_per_leg as i128) - slippage_cost as i128
    }

    /// Whether the expected profit is strictly above the minimum.
    pub fn should_trade(
        &self,
        signal: &ArbitrageSignal,
        size: u64,
        fee_rate: u64,
        slippage: u64,
    ) -> (go: bool)
        ensures
            go == (profit_estimate(signal.edge, signal.yes_price, size, fee_rate, slippage)
                > self.min_profit_threshold),
    {
        self.expected_profit(signal, size, fee_rate, slippage) > self.min_profit_threshold as i128
    }
}

/// A market whose prices sum to exactly one gives no signal, whatever the
/// threshold.
pub proof fn lemma_exact_sum_gives_no_signal(market: Market, threshold: u64)
    requires
        price_total(market.outcome_prices@) == SCALE,
    ensures
        !deviates(market.outcome_prices@, threshold),
        signals_of(seq![market], threshold) == Seq::<ArbitrageSignal>::empty(),
{
    reveal_with_fuel(signals_of, 2);
    assert(seq![market].drop_last() =~= Seq::<Market>::empty());
    assert(seq![market].last() == market);
}

/// A market whose prices sum to one within the tolerance gives no signal,
/// unless the threshold is set below its spread; that cannot happen with a
/// threshold of at least the tolerance less one millionth.
pub proof fn lemma_balanced_market_gives_no_signal(market: Market, threshold: u64)
    requires
        balanced(market.outcome_prices@),
        threshold + 1 >= BALANCE_TOLERANCE || spread_of(market.outcome_prices@) <= threshold,
    ensures
        !deviates(market.outcome_prices@, threshold),
        signals_of(seq![market], threshold) == Seq::<ArbitrageSignal>::empty(),
{
    reveal_with_fuel(signals_of, 2);
    assert(seq![market].drop_last() =~= Seq::<Market>::empty());
    assert(seq![market].last() == market);
}

/// A live, order-taking market whose prices sum to something further from
/// one than the threshold gives exactly one signal; the spread of that
/// signal is the distance of the sum from one, and its side is to buy where
/// the sum is below one and to sell where it is above.
pub proof fn lemma_deviating_market_gives_one_signal(market: Market, threshold: u64)
    requires
        market.active && market.accepting_orders,
        distance(price_total(market.outcome_prices@), SCALE as int) > threshold,
        distance(price_total(market.outcome_prices@), SCALE as int) <= u64::MAX,
    ensures
        signals_of(seq![market], threshold) == seq![signal_for(market)],
        signal_for(market).spread == distance(price_total(market.outcome_prices@), SCALE as int),
        signal_for(market).edge == signal_for(market).spread,
        price_total(market.outcome_prices@) < SCALE ==> signal_for(market).recommended_side
            == Side::Buy,
        price_total(market.outcome_prices@) > SCALE ==> signal_for(market).recommended_side
            == Side::Sell,
{
    reveal_with_fuel(signals_of, 2);
    assert(seq![market].drop_last() =~= Seq::<Market>::empty());
    assert(seq![market].last() == market);
    assert(signals_of(seq![market], threshold) =~= seq![signal_for(market)]);
}

/// A spread exactly at the threshold gives no signal.
pub proof fn lemma_spread_at_threshold_gives_no_signal(market: Market, threshold: u64)
    requires
        spread_of(market.outcome_prices@) == threshold,
    ensures
        !deviates(market.outcome_prices@, threshold),
        signals_of(seq![market], threshold) == Seq::<ArbitrageSignal>::empty(),
{
    reveal_with_fuel(signals_of, 2);
    assert(seq![market].drop_last() =~= Seq::<Market>::empty());
    assert(seq![market].last() == market);
}

} // verus!
