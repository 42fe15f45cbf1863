//! Repeated runs of the engine under varied latency, and the tally of what
//! each run deployed.

use crate::arb::ArbitrageDetector;
use crate::config::SafetyConfig;
use crate::engine::{SafetyState, TradingEngine};
use crate::execution::ExecutionEngine;
use crate::fees::FeeModel;
use crate::latency::LatencyModel;
use crate::wallet::{Wallet, WalletState};
use vstd::prelude::*;

verus! {

/// Daily limit of the wallet of each run.
pub const RUN_DAILY_LIMIT: u64 = 100_000_000;

/// Cycles in each run.
pub const RUN_TICKS: usize = 10;

/// The latency model of run `run`: the delay sweeps from fifty to
/// ninety-nine milliseconds, the deviation of the adverse move from nothing
/// to four thousandths.
pub open spec fn latency_of_run(run: usize) -> LatencyModel {
    LatencyModel {
        mean_delay_ms: (50 + run % 50) as u64,
        adverse_move_std: (1_000 * (run % 5)) as u64,
    }
}

/// What the runs so far came to.
#[derive(Debug, Clone, Copy, PartialEq, Eq, Structural)]
pub struct RunTally {
    pub runs: u64,
    /// Sum of what the runs deployed.
    pub total_volume: u128,
    /// Runs that deployed something.
    pub active_runs: u64,
    /// Runs that deployed nothing.
    pub inactive_runs: u64,
}

impl RunTally {
    /// The tally with one more run that deployed `deployed`. A tally at the
    /// top of its range takes no more runs.
    pub open spec fn with_run(self, deployed: u64) -> RunTally {
        if self.runs == u64::MAX || self.active_runs == u64::MAX || self.inactive_runs == u64::MAX
            || self.total_volume + deployed > u128::MAX {
            self
        } else {
            RunTally {
                runs: (self.runs + 1) as u64,
                total_volume: (self.total_volume + deployed) as u128,
                active_runs: if deployed > 0 {
                    (self.active_runs + 1) as u64
                } else {
                    self.active_runs
                },
                inactive_runs: if deployed > 0 {
                    self.inactive_runs
                } else {
                    (self.inactive_runs + 1) as u64
                },
            }
        }
    }

    /// The tally before any run.
    pub fn new() -> (tally: Self)
        ensures
            tally == (RunTally { runs: 0, total_volume: 0, active_runs: 0, inactive_runs: 0 }),
    {
        RunTally { runs: 0, total_volume: 0, active_runs: 0, inactive_runs: 0 }
    }

    /// Adds a run that deployed `deployed`.
    pub fn record(&mut self, deployed: u64)
        ensures
            *final(self) == old(self).with_run(deployed),
    {
        if self.runs == u64::MAX || self.active_runs == u64::MAX || self.inactive_runs == u64::MAX
            || self.total_volume > u128::MAX - deployed as u128 {
            return ;
        }
        self.runs = self.runs + 1;
        self.total_volume = self.total_volume + deployed as u128;
        if deployed > 0 {
            self.active_runs = self.active_runs + 1;
        } else {
            self.inactive_runs = self.inactive_runs + 1;
        }
    }
}

/// The engine of run `run`, set up at `now`: a fresh wallet, the standard
/// taker fee, tight spread and profit thresholds, and the latency of the
/// run.
pub fn engine_for_run(run: usize, now: u64) -> (engine: TradingEngine)
    ensures
        engine.wallet@ == WalletState::fresh(RUN_DAILY_LIMIT, now),
        engine.detector.constraint_checker.min_spread_threshold == 10_000,
        engine.detector.min_profit_threshold == 50_000,
        engine.execution_engine == (ExecutionEngine {
            fee_model: FeeModel { maker_fee_bps: 0, taker_fee_bps: 200 },
            latency_model: latency_of_run(run),
        }),
        engine.safety@ == SafetyState::initial(SafetyConfig::standard()),
{
    let wallet = Wallet::new(RUN_DAILY_LIMIT, now);
    let fee_model = FeeModel { maker_fee_bps: 0, taker_fee_bps: 200 };
    let latency_model = LatencyModel::new(50 + (run % 50) as u64, 1_000 * ((run % 5) as u64));
    let detector = ArbitrageDetector::new(10_000, 50_000);
    let execution_engine = ExecutionEngine::new(fee_model, latency_model);
    TradingEngine::new(wallet, detector, execution_engine)
}

} // verus!
