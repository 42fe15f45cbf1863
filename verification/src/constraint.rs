//! The balanced-price rule: the outcome prices of a market should sum to one.

use crate::fixed::SCALE;
use crate::types::{price_at, price_total, spread_of, ArbitrageSignal, Market, Side};
use vstd::prelude::*;

verus! {

/// Checks markets against a minimum spread.
#[derive(Debug, Clone, Copy)]
pub struct ConstraintChecker {
    /// A market is flagged only where its spread is strictly above this.
    pub min_spread_threshold: u64,
}

/// Whether prices deviate from one by strictly more than `threshold`.
pub open spec fn deviates(prices: Seq<u64>, threshold: u64) -> bool {
    spread_of(prices) > threshold
}

/// The side to take on a deviation: sell an overpriced bundle, buy an
/// underpriced one.
pub open spec fn side_for(prices: Seq<u64>) -> Side {
    if price_total(prices) > SCALE {
        Side::Sell
    } else {
        Side::Buy
    }
}

/// The signal that `market` gives rise to: its spread as spread and edge,
/// the side that the sum of its prices calls for, and its first two prices
/// for reference.
pub open spec fn signal_for(market: Market) -> ArbitrageSignal {
    ArbitrageSignal {
        market_id: market.id,
        spread: spread_of(market.outcome_prices@) as u64,
        edge: spread_of(market.outcome_prices@) as u64,
        recommended_side: side_for(market.outcome_prices@),
        yes_price: price_at(market.outcome_prices@, 0),
        no_price: price_at(market.outcome_prices@, 1),
    }
}

impl ConstraintChecker {
    pub fn new(min_spread_threshold: u64) -> (checker: Self)
        ensures
            checker.min_spread_threshold == min_spread_threshold,
    {
        Self { min_spread_threshold }
    }

    /// The signal for `market`, where its spread is strictly above the
    /// threshold; none otherwise.
    pub fn check_violation(&self, market: &Market) -> (result: Option<ArbitrageSignal>)
        ensures
            result == (if deviates(market.outcome_prices@, self.min_spread_threshold) {
                Some(signal_for(*market))
            } else {
                None
            }),
    {
        let total = crate::types::total_price(&market.outcome_prices);
        let spread = market.get_spread();
        if spread <= self.min_spread_threshold {
            return None;
        }
        let recommended_side = if total > SCALE as u128 {
            Side::Sell
        } else {
            Side::Buy
        };
        Some(
            ArbitrageSignal {
                market_id: market.id.clone(),
                spread,
                edge: spread,
                recommended_side,
                yes_price: market.yes_price(),
                no_price: market.no_price(),
            },
        )
    }
}

} // verus!
