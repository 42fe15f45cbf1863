//! Network latency and the adverse price move it exposes an order to.

use crate::fixed::{mul_scaled, scaled_product, shift, shifted};
use vstd::prelude::*;

verus! {

/// Latency and adverse-selection model.
#[derive(Debug, Clone, Copy, PartialEq, Eq, Structural)]
pub struct LatencyModel {
    /// Delay between decision and execution, in milliseconds.
    pub mean_delay_ms: u64,
    /// Standard deviation of the relative price move over that delay.
    pub adverse_move_std: u64,
}

/// Size of a signed draw.
pub open spec fn magnitude(draw: i64) -> int {
    if draw >= 0 {
        draw as int
    } else {
        -(draw as int)
    }
}

/// The price after a relative move of `draw` standard deviations: the price
/// plus or minus its product with `std * |draw|`.
pub open spec fn perturbed(price: u64, std: u64, draw: i64) -> int {
    shifted(
        price as int,
        scaled_product(price as int, scaled_product(std as int, magnitude(draw))),
        draw >= 0,
    )
}

/// With no deviation configured the price does not move.
pub proof fn lemma_zero_std_keeps_price(price: u64, draw: i64)
    ensures
        perturbed(price, 0, draw) == price,
{
    assert(0 * magnitude(draw) == 0) by (nonlinear_arith);
    assert((price as int) * 0 == 0) by (nonlinear_arith);
}

impl LatencyModel {
    pub fn new(mean_delay_ms: u64, adverse_move_std: u64) -> (model: Self)
        ensures
            model.mean_delay_ms == mean_delay_ms,
            model.adverse_move_std == adverse_move_std,
    {
        Self { mean_delay_ms, adverse_move_std }
    }

    /// Applies the adverse move to `signal_price` and reports the delay to
    /// wait out, in milliseconds. `draw` is a sample of the standard normal
    /// distribution; the caller owns the random source.
    pub fn apply(&self, signal_price: u64, draw: i64) -> (moved: (u64, u64))
        ensures
            moved.0 as int == perturbed(signal_price, self.adverse_move_std, draw),
            moved.1 == self.mean_delay_ms,
            self.adverse_move_std == 0 ==> moved.0 == signal_price,
    {
        let size: u64 = if draw >= 0 {
            draw as u64
        } else {
            (-(draw as i128)) as u64
        };
        let move_pct = mul_scaled(self.adverse_move_std, size);
        let delta = mul_scaled(signal_price, move_pct);
        proof {
            lemma_zero_std_keeps_price(signal_price, draw);
        }
        (shift(signal_price, delta, draw >= 0), self.mean_delay_ms)
    }
}

} // verus!
