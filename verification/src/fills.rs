//! How much of an order the book fills.

use crate::types::{depth, total_depth, OrderBook, Side};
use vstd::prelude::*;

verus! {

/// Fill model: an order is filled as far as the liquidity resting on its
/// side of the book reaches, never beyond it.
#[derive(Debug, Clone, Copy)]
pub struct FillModel;

/// The part of `size` that `available` liquidity fills.
pub open spec fn fillable(size: int, available: int) -> int {
    if available < size {
        available
    } else {
        size
    }
}

impl FillModel {
    /// The size filled of an order for `size` on `side` of `book`.
    pub fn filled_size(book: &OrderBook, size: u64, side: Side) -> (filled: u64)
        ensures
            filled as int == fillable(size as int, depth(book.levels_for(side))),
    {
        let available = match side {
            Side::Buy => total_depth(&book.asks),
            Side::Sell => total_depth(&book.bids),
        };
        if available < size as u128 {
            available as u64
        } else {
            size
        }
    }
}

} // verus!
