//! The execution simulator: from an order book and an order to a simulated
//! fill, charged against the wallet's allowance.

use crate::fees::FeeModel;
use crate::fills::{fillable, FillModel};
use crate::fixed::{abs_diff, distance, div_scaled, mul_scaled, scaled_product, scaled_ratio};
use crate::latency::{perturbed, LatencyModel};
use crate::types::{depth, vwap, ExecutionResult, OrderBook, Side};
use crate::wallet::{upserted, Position, Wallet, WalletState};
use vstd::prelude::*;

verus! {

/// Execution simulator.
#[derive(Debug, Clone, Copy)]
pub struct ExecutionEngine {
    pub fee_model: FeeModel,
    pub latency_model: LatencyModel,
}

/// What a fill would be, before the allowance is consulted.
pub struct Quote {
    pub filled_size: u64,
    pub execution_price: u64,
    pub fee: u64,
    pub slippage: u64,
    /// Notional plus fee. It may exceed 64 bits, and is then beyond any
    /// allowance.
    pub total_cost: int,
}

impl Quote {
    /// The result reported for a fill at this quote.
    pub open spec fn as_result(self) -> ExecutionResult {
        ExecutionResult {
            filled_size: self.filled_size,
            execution_price: self.execution_price,
            fee_paid: self.fee,
            slippage: self.slippage,
            total_cost: self.total_cost as u64,
            success: true,
        }
    }
}

impl ExecutionEngine {
    /// The quote for an order of `size` on `side` of `book`, with the adverse
    /// move given by `draw`; none where the book cannot fill the order:
    ///
    /// 1. the theoretical price is the size-weighted average found by walking
    ///    the book;
    /// 2. the execution price is the theoretical price after the adverse move;
    /// 3. the filled size is what the fill model grants, and must not be zero;
    /// 4. slippage is the distance of the execution price from the midpoint,
    ///    relative to the midpoint, with the execution price standing in for a
    ///    midpoint the book does not have;
    /// 5. the cost is the notional, execution price times filled size, plus
    ///    the taker fee on it.
    pub open spec fn quote(
        &self,
        book: OrderBook,
        size: u64,
        side: Side,
        draw: i64,
    ) -> Option<Quote> {
        let levels = book.levels_for(side);
        match vwap(levels, size as int) {
            None => None,
            Some(theoretical) => {
                let execution_price = perturbed(
                    theoretical as u64,
                    self.latency_model.adverse_move_std,
                    draw,
                );
                let filled_size = fillable(size as int, depth(levels));
                if filled_size <= 0 {
                    None
                } else {
                    let midpoint = match book.mid() {
                        Some(m) => m as int,
                        None => execution_price,
                    };
                    let notional = scaled_product(execution_price, filled_size);
                    let fee = self.fee_model.fee(notional, true);
                    Some(
                        Quote {
                            filled_size: filled_size as u64,
                            execution_price: execution_price as u64,
                            fee: fee as u64,
                            slippage: scaled_ratio(
                                distance(execution_price, midpoint),
                                midpoint,
                            ) as u64,
                            total_cost: notional + fee,
                        },
                    )
                }
            },
        }
    }

    /// The wallet after a fill at `quote` for the token of `book` at `now`:
    /// the cost is charged, the holding is on record, and the trade is
    /// tallied.
    pub open spec fn settled(
        wallet: WalletState,
        book: OrderBook,
        side: Side,
        quote: Quote,
        now: u64,
    ) -> WalletState {
        let charged = wallet.charged(quote.total_cost, now);
        WalletState {
            positions: upserted(
                charged.positions,
                Position {
                    token_id: book.token_id,
                    side,
                    size: quote.filled_size,
                    entry_price: quote.execution_price,
                    entry_time: now,
                },
            ),
            ..charged
        }.counted(true)
    }

    pub fn new(fee_model: FeeModel, latency_model: LatencyModel) -> (engine: Self)
        ensures
            engine.fee_model == fee_model,
            engine.latency_model == latency_model,
    {
        Self { fee_model, latency_model }
    }

    /// Simulates the execution of an order of `size` on `side` of `book` at
    /// time `now`, with the adverse move given by `draw`, a sample of the
    /// standard normal distribution.
    ///
    /// There is a fill exactly where the book yields a quote and the wallet
    /// authorizes its cost. The wallet is then charged, the holding recorded
    /// and the trade tallied. Where there is no fill the wallet is left as it
    /// was.
    pub fn execute(
        &self,
        book: &OrderBook,
        size: u64,
        side: Side,
        wallet: &mut Wallet,
        draw: i64,
        now: u64,
    ) -> (result: Option<ExecutionResult>)
        ensures
            match self.quote(*book, size, side, draw) {
                Some(quote) if old(wallet)@.authorizes(quote.total_cost, now) => {
                    &&& result == Some(quote.as_result())
                    &&& final(wallet)@ == Self::settled(old(wallet)@, *book, side, quote, now)
                },
                _ => {
                    &&& result is None
                    &&& final(wallet)@ == old(wallet)@
                },
            },
    {
        let initial_price = match book.execution_price(size, side) {
            Some(p) => p,
            None => {
                return None;
            },
        };
        let (exec_price, _delay) = self.latency_model.apply(initial_price, draw);
        let filled_size = FillModel::filled_size(book, size, side);
        if filled_size == 0 {
            return None;
        }
        let midpoint = match book.midpoint() {
            Some(m) => m,
            None => exec_price,
        };
        let slippage = div_scaled(abs_diff(exec_price, midpoint), midpoint);
        let notional = mul_scaled(exec_price, filled_size);
        let fee = self.fee_model.calculate(notional, true);
        let total: u128 = notional as u128 + fee as u128;
        if total > u64::MAX as u128 {
            return None;
        }
        let total_cost = total as u64;
        if !wallet.is_authorized(total_cost, now) {
            return None;
        }
        wallet.record_spend(total_cost, now);
        wallet.open_position(book.token_id.clone(), side, filled_size, exec_price, now);
        wallet.record_trade(true);
        Some(
            ExecutionResult {
                filled_size,
                execution_price: exec_price,
                fee_paid: fee,
                slippage,
                total_cost,
                success: true,
            },
        )
    }
}

} // verus!
