//! Trading fees.

use crate::fixed::{mul_scaled, scaled_product};
use vstd::prelude::*;

verus! {

/// Fee schedule in basis points, for orders that add liquidity (maker) and
/// orders that remove it (taker).
#[derive(Debug, Clone, Copy, PartialEq, Eq, Structural)]
pub struct FeeModel {
    pub maker_fee_bps: u32,
    pub taker_fee_bps: u32,
}

/// A fee in basis points as a ratio.
pub open spec fn rate_of_bps(bps: u32) -> int {
    bps as int * 100
}

impl FeeModel {
    /// The fee charged on `notional`.
    pub open spec fn fee(&self, notional: int, is_taker: bool) -> int {
        if is_taker {
            scaled_product(notional, rate_of_bps(self.taker_fee_bps))
        } else {
            scaled_product(notional, rate_of_bps(self.maker_fee_bps))
        }
    }

    /// The maker fee as a ratio.
    pub fn maker_rate(&self) -> (rate: u64)
        ensures
            rate as int == rate_of_bps(self.maker_fee_bps),
    {
        self.maker_fee_bps as u64 * 100
    }

    /// The taker fee as a ratio.
    pub fn taker_rate(&self) -> (rate: u64)
        ensures
            rate as int == rate_of_bps(self.taker_fee_bps),
    {
        self.taker_fee_bps as u64 * 100
    }

    /// The fee on `notional`, at the taker rate or the maker rate.
    pub fn calculate(&self, notional: u64, is_taker: bool) -> (fee: u64)
        ensures
            fee as int == self.fee(notional as int, is_taker),
    {
        if is_taker {
            mul_scaled(notional, self.taker_rate())
        } else {
            mul_scaled(notional, self.maker_rate())
        }
    }
}

} // verus!
