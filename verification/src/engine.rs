//! The safety state of the trading cycle: the check that is made before
//! every cycle, and the record of data failures that feeds it.

use crate::arb::{signals_of, ArbitrageDetector};
use crate::config::SafetyConfig;
use crate::execution::ExecutionEngine;
use crate::fixed::clamp_u64;
use crate::lookup::first_index;
use crate::types::{
    find_market, market_ids, ArbitrageSignal, ExecutionResult, Market, OrderBook, Side,
};
use crate::wallet::Wallet;
use vstd::prelude::*;

verus! {

/// Size of each leg of a bundle purchase made by the cycle.
pub const LEG_SIZE: u64 = 5_000_000;

/// Why the engine went into safe mode.
#[derive(Debug, Clone, Copy, PartialEq, Eq, Structural)]
pub enum SafeModeReason {
    /// This many data fetches failed in a row.
    ConsecutiveFailures { count: u32 },
}

/// Operational status of the engine.
#[derive(Debug, Clone, Copy, PartialEq, Eq, Structural)]
pub enum EngineStatus {
    /// Trading normally.
    Running,
    /// Not trading until the clock, in milliseconds, reaches `until`.
    SafeMode { reason: SafeModeReason, until: u64 },
    /// Not trading because the market data is `delay_ms` milliseconds old.
    DataDelaySuspended { delay_ms: u64 },
    /// The permission was revoked or has expired. There is no way back.
    Stopped,
}

/// The part of the engine that the safety check reads and writes.
pub struct SafetyState {
    pub status: EngineStatus,
    pub consecutive_failures: u32,
    pub config: SafetyConfig,
    /// Time of the last successful data fetch, in milliseconds.
    pub last_data_fetch: Option<u64>,
}

/// Milliseconds from `then` to `now`; none where the clock reads earlier.
pub open spec fn age(then: u64, now: u64) -> u64 {
    if now >= then {
        (now - then) as u64
    } else {
        0
    }
}

impl SafetyState {
    /// The state of an engine that has just been set up: running, with no
    /// failure on record and no data fetched yet.
    pub open spec fn initial(config: SafetyConfig) -> SafetyState {
        SafetyState {
            status: EngineStatus::Running,
            consecutive_failures: 0,
            config,
            last_data_fetch: None,
        }
    }

    /// The state with which the checks after the cooldown check are made: a
    /// safe mode that has run its time gives way to running, with the
    /// failure count cleared.
    pub open spec fn resumed(self, now: u64) -> SafetyState {
        match self.status {
            EngineStatus::SafeMode { reason, until } if now >= until => SafetyState {
                status: EngineStatus::Running,
                consecutive_failures: 0,
                ..self
            },
            _ => self,
        }
    }

    /// The market data is older than the configured maximum.
    pub open spec fn stale(self, now: u64) -> bool {
        match self.last_data_fetch {
            Some(last) => age(last, now) > self.config.max_data_delay_ms,
            None => false,
        }
    }

    /// Whether a cycle may run at `now`. In order: a stopped engine never
    /// runs; safe mode skips the cycle until its time is up; stale data
    /// skips it; a run of failures as long as the configured maximum skips
    /// it.
    pub open spec fn admits(self, now: u64) -> bool {
        &&& self.status != EngineStatus::Stopped
        &&& match self.status {
            EngineStatus::SafeMode { reason, until } => now >= until,
            _ => true,
        }
        &&& !self.resumed(now).stale(now)
        &&& self.resumed(now).consecutive_failures < self.config.max_consecutive_failures
    }

    /// The state that the safety check leaves behind at `now`.
    pub open spec fn after_check(self, now: u64) -> SafetyState {
        if self.status == EngineStatus::Stopped {
            self
        } else if self.status matches EngineStatus::SafeMode { reason, until } && now < until {
            self
        } else {
            let current = self.resumed(now);
            if current.stale(now) {
                SafetyState {
                    status: EngineStatus::DataDelaySuspended {
                        delay_ms: age(current.last_data_fetch->0, now),
                    },
                    ..current
                }
            } else if current.consecutive_failures >= current.config.max_consecutive_failures {
                SafetyState {
                    status: EngineStatus::SafeMode {
                        reason: SafeModeReason::ConsecutiveFailures {
                            count: current.consecutive_failures,
                        },
                        until: clamp_u64(
                            now + current.config.safe_mode_cooldown_secs * 1000,
                        ) as u64,
                    },
                    ..current
                }
            } else {
                current
            }
        }
    }

    /// The state after a data fetch failed: one more failure in the run. The
    /// count stops at the top of its range.
    pub open spec fn failed(self) -> SafetyState {
        SafetyState {
            consecutive_failures: if self.consecutive_failures == u32::MAX {
                u32::MAX
            } else {
                (self.consecutive_failures + 1) as u32
            },
            ..self
        }
    }

    /// The state after a data fetch succeeded at `now`.
    pub open spec fn succeeded(self, now: u64) -> SafetyState {
        SafetyState { consecutive_failures: 0, last_data_fetch: Some(now), ..self }
    }

    /// The state after `n` data fetches failed in a row.
    pub open spec fn failed_times(self, n: nat) -> SafetyState
        decreases n,
    {
        if n == 0 {
            self
        } else {
            self.failed_times((n - 1) as nat).failed()
        }
    }
}

/// While safe mode lasts the safety check admits no cycle and changes
/// nothing.
pub proof fn lemma_safe_mode_holds(state: SafetyState, now: u64)
    requires
        state.status matches EngineStatus::SafeMode { reason, until } && now < until,
    ensures
        !state.admits(now),
        state.after_check(now) == state,
{
}

/// A stopped engine stays stopped.
pub proof fn lemma_stopped_is_terminal(state: SafetyState, now: u64)
    requires
        state.status == EngineStatus::Stopped,
    ensures
        !state.admits(now),
        state.after_check(now) == state,
        state.failed().status == EngineStatus::Stopped,
        state.succeeded(now).status == EngineStatus::Stopped,
{
}

/// After as many failures in a row as the configured maximum, a running
/// engine whose data is not stale goes into safe mode at the next safety
/// check, for the length of the cooldown.
pub proof fn lemma_failure_run_enters_safe_mode(state: SafetyState, n: nat, now: u64)
    requires
        state.status == EngineStatus::Running,
        state.consecutive_failures == 0,
        n == state.config.max_consecutive_failures,
        !state.stale(now),
    ensures
        !state.failed_times(n).admits(now),
        state.failed_times(n).after_check(now).status == (EngineStatus::SafeMode {
            reason: SafeModeReason::ConsecutiveFailures { count: n as u32 },
            until: clamp_u64(now + state.config.safe_mode_cooldown_secs * 1000) as u64,
        }),
{
    lemma_failed_times(state, n);
}

/// A run of failures adds its length to the count.
proof fn lemma_failed_times(state: SafetyState, n: nat)
    requires
        state.consecutive_failures + n <= u32::MAX,
    ensures
        state.failed_times(n) == (SafetyState {
            consecutive_failures: (state.consecutive_failures + n) as u32,
            ..state
        }),
    decreases n,
{
    if n > 0 {
        lemma_failed_times(state, (n - 1) as nat);
    }
}

/// An order the cycle has decided to place.
#[derive(Debug)]
pub struct OrderRequest {
    pub token_id: String,
    pub size: u64,
    pub side: Side,
}

/// One purchase of `LEG_SIZE` for each token of `market`.
pub open spec fn legs(market: Market) -> Seq<OrderRequest> {
    market.clob_token_ids@.map_values(
        |token: String| OrderRequest { token_id: token, size: LEG_SIZE, side: Side::Buy },
    )
}

/// The orders that `signal` leads to: for a signal to buy, the legs of the
/// first of `markets` that carries its identifier; none otherwise.
pub open spec fn orders_for(signal: ArbitrageSignal, markets: Seq<Market>) -> Seq<OrderRequest> {
    if signal.recommended_side == Side::Buy {
        match first_index(market_ids(markets), signal.market_id@) {
            Some(m) => legs(markets[m]),
            None => Seq::empty(),
        }
    } else {
        Seq::empty()
    }
}

/// The orders that `signals` lead to, signal by signal.
pub open spec fn planned(signals: Seq<ArbitrageSignal>, markets: Seq<Market>) -> Seq<OrderRequest>
    decreases signals.len(),
{
    if signals.len() == 0 {
        Seq::empty()
    } else {
        planned(signals.drop_last(), markets) + orders_for(signals.last(), markets)
    }
}

/// The orders to place for `signals`: a bundle purchase, one leg per token,
/// in each market that a signal says to buy.
pub fn plan_orders(
    signals: &Vec<ArbitrageSignal>,
    markets: &[Market],
) -> (orders: Vec<OrderRequest>)
    ensures
        orders@ == planned(signals@, markets@),
{
    let mut orders: Vec<OrderRequest> = Vec::new();
    let mut i: usize = 0;
    while i < signals.len()
        invariant
            i <= signals.len(),
            orders@ == planned(signals@.take(i as int), markets@),
        decreases signals.len() - i,
    {
        let signal = &signals[i];
        proof {
            assert(signals@.take(i + 1).drop_last() =~= signals@.take(i as int));
            assert(signals@.take(i + 1).last() == *signal);
        }
        let ghost before = orders@;
        if signal.recommended_side == Side::Buy {
            match find_market(markets, &signal.market_id) {
                Some(m) => {
                    let market = &markets[m];
                    let mut t: usize = 0;
                    while t < market.clob_token_ids.len()
                        invariant
                            t <= market.clob_token_ids.len(),
                            orders@ == before + legs(*market).take(t as int),
                        decreases market.clob_token_ids.len() - t,
                    {
                        orders.push(
                            OrderRequest {
                                token_id: market.clob_token_ids[t].clone(),
                                size: LEG_SIZE,
                                side: Side::Buy,
                            },
                        );
                        proof {
                            assert(legs(*market).take(t + 1) =~= legs(*market).take(t as int).push(
                                legs(*market)[t as int],
                            ));
                        }
                        t = t + 1;
                    }
                    proof {
                        assert(legs(*market).take(t as int) =~= legs(*market));
                    }
                },
                None => {
                    assert(orders@ =~= before + Seq::<OrderRequest>::empty());
                },
            }
        } else {
            assert(orders@ =~= before + Seq::<OrderRequest>::empty());
        }
        i = i + 1;
    }
    proof {
        assert(signals@.take(i as int) =~= signals@);
    }
    orders
}

/// Keeps the safety state of the engine. The status moves only through the
/// safety check and through [`SafetyMonitor::stop`]; once stopped it stays
/// stopped.
#[derive(Debug, Clone, Copy)]
pub struct SafetyMonitor {
    status: EngineStatus,
    consecutive_failures: u32,
    safety_config: SafetyConfig,
    last_data_fetch: Option<u64>,
}

impl View for SafetyMonitor {
    type V = SafetyState;

    closed spec fn view(&self) -> SafetyState {
        SafetyState {
            status: self.status,
            consecutive_failures: self.consecutive_failures,
            config: self.safety_config,
            last_data_fetch: self.last_data_fetch,
        }
    }
}

impl SafetyMonitor {
    /// A monitor that is running, with no failure on record and no data
    /// fetched yet.
    pub fn new(config: SafetyConfig) -> (monitor: Self)
        ensures
            monitor@ == SafetyState::initial(config),
    {
        Self {
            status: EngineStatus::Running,
            consecutive_failures: 0,
            safety_config: config,
            last_data_fetch: None,
        }
    }

    /// The monitor with other limits.
    pub fn with_config(self, config: SafetyConfig) -> (monitor: Self)
        ensures
            monitor@ == (SafetyState { config, ..self@ }),
    {
        Self { safety_config: config, ..self }
    }

    /// The current status.
    pub fn status(&self) -> (status: &EngineStatus)
        ensures
            *status == self@.status,
    {
        &self.status
    }

    /// The length of the current run of failed data fetches.
    pub fn consecutive_failures(&self) -> (count: u32)
        ensures
            count == self@.consecutive_failures,
    {
        self.consecutive_failures
    }

    /// The safety check before a cycle, at `now` in milliseconds: says whether the
    /// cycle may run, and moves the status where a check trips.
    pub fn check(&mut self, now: u64) -> (proceed: bool)
        ensures
            proceed == old(self)@.admits(now),
            final(self)@ == old(self)@.after_check(now),
    {
        match self.status {
            EngineStatus::Stopped => {
                return false;
            },
            EngineStatus::SafeMode { reason: _, until } => {
                if now < until {
                    return false;
                }
                self.status = EngineStatus::Running;
                self.consecutive_failures = 0;
            },
            _ => {},
        }
        match self.last_data_fetch {
            Some(last) => {
                let delay = if now >= last {
                    now - last
                } else {
                    0
                };
                if delay > self.safety_config.max_data_delay_ms {
                    self.status = EngineStatus::DataDelaySuspended { delay_ms: delay };
                    return false;
                }
            },
            None => {},
        }
        if self.consecutive_failures >= self.safety_config.max_consecutive_failures {
            let cooldown: u128 = self.safety_config.safe_mode_cooldown_secs as u128 * 1000;
            let until: u128 = now as u128 + cooldown;
            self.status = EngineStatus::SafeMode {
                reason: SafeModeReason::ConsecutiveFailures { count: self.consecutive_failures },
                until: if until > u64::MAX as u128 {
                    u64::MAX
                } else {
                    until as u64
                },
            };
            return false;
        }
        true
    }

    /// Records that a data fetch failed.
    pub fn record_failure(&mut self)
        ensures
            final(self)@ == old(self)@.failed(),
    {
        if self.consecutive_failures < u32::MAX {
            self.consecutive_failures = self.consecutive_failures + 1;
        }
    }

    /// Records that a data fetch succeeded at `now`, in milliseconds.
    pub fn record_success(&mut self, now: u64)
        ensures
            final(self)@ == old(self)@.succeeded(now),
    {
        self.consecutive_failures = 0;
        self.last_data_fetch = Some(now);
    }

    /// Stops the engine for good.
    pub fn stop(&mut self)
        ensures
            final(self)@ == (SafetyState { status: EngineStatus::Stopped, ..old(self)@ }),
    {
        self.status = EngineStatus::Stopped;
    }
}

/// The trading engine: the wallet, the detector and the simulator, wrapped
/// in the safety state that decides whether a cycle may run.
#[derive(Debug)]
pub struct TradingEngine {
    pub wallet: Wallet,
    pub detector: ArbitrageDetector,
    pub execution_engine: ExecutionEngine,
    pub safety: SafetyMonitor,
}

impl TradingEngine {
    /// An engine that is running, with no failure on record, no data fetched
    /// yet, and the default safety limits.
    pub fn new(
        wallet: Wallet,
        detector: ArbitrageDetector,
        execution_engine: ExecutionEngine,
    ) -> (engine: Self)
        ensures
            engine.wallet == wallet,
            engine.detector == detector,
            engine.execution_engine == execution_engine,
            engine.safety@ == SafetyState::initial(SafetyConfig::standard()),
    {
        Self {
            wallet,
            detector,
            execution_engine,
            safety: SafetyMonitor::new(SafetyConfig::default()),
        }
    }

    /// The engine with other safety limits.
    pub fn with_safety_config(self, config: SafetyConfig) -> (engine: Self)
        ensures
            engine.wallet == self.wallet,
            engine.detector == self.detector,
            engine.execution_engine == self.execution_engine,
            engine.safety@ == (SafetyState { config, ..self.safety@ }),
    {
        Self {
            wallet: self.wallet,
            detector: self.detector,
            execution_engine: self.execution_engine,
            safety: self.safety.with_config(config),
        }
    }

    /// The current status.
    pub fn get_status(&self) -> (status: &EngineStatus)
        ensures
            *status == self.safety@.status,
    {
        self.safety.status()
    }

    /// The safety check before a cycle, at `now` in milliseconds: says whether the
    /// cycle may run, and moves the status where a check trips. See
    /// [`SafetyState::admits`] and [`SafetyState::after_check`].
    pub fn check_safety_conditions(&mut self, now: u64) -> (proceed: bool)
        ensures
            proceed == old(self).safety@.admits(now),
            final(self).safety@ == old(self).safety@.after_check(now),
            final(self).wallet == old(self).wallet,
            final(self).detector == old(self).detector,
            final(self).execution_engine == old(self).execution_engine,
    {
        self.safety.check(now)
    }

    /// Records that a data fetch failed.
    pub fn handle_failure(&mut self)
        ensures
            final(self).safety@ == old(self).safety@.failed(),
            final(self).wallet == old(self).wallet,
            final(self).detector == old(self).detector,
            final(self).execution_engine == old(self).execution_engine,
    {
        self.safety.record_failure();
    }

    /// Records that a data fetch succeeded at `now`, in milliseconds.
    pub fn handle_success(&mut self, now: u64)
        ensures
            final(self).safety@ == old(self).safety@.succeeded(now),
            final(self).wallet == old(self).wallet,
            final(self).detector == old(self).detector,
            final(self).execution_engine == old(self).execution_engine,
    {
        self.safety.record_success(now);
    }

    /// What a cycle does with the markets it has fetched at `now`, in
    /// milliseconds: the fetch counts as a success, the markets are scanned,
    /// and the orders for the signals found are returned.
    pub fn orders_for_cycle(
        &mut self,
        markets: &[Market],
        now: u64,
    ) -> (orders: Vec<OrderRequest>)
        ensures
            orders@ == planned(
                signals_of(markets@, old(self).detector.constraint_checker.min_spread_threshold),
                markets@,
            ),
            final(self).safety@ == old(self).safety@.succeeded(now),
            final(self).wallet == old(self).wallet,
            final(self).detector == old(self).detector,
            final(self).execution_engine == old(self).execution_engine,
    {
        self.safety.record_success(now);
        let signals = self.detector.scan(markets);
        plan_orders(&signals, markets)
    }

    /// Fills `order` against `book` at `now`, in seconds, with the adverse
    /// move given by `draw`. See [`ExecutionEngine::execute`].
    pub fn fill(
        &mut self,
        order: &OrderRequest,
        book: &OrderBook,
        draw: i64,
        now: u64,
    ) -> (result: Option<ExecutionResult>)
        ensures
            match old(self).execution_engine.quote(*book, order.size, order.side, draw) {
                Some(quote) if old(self).wallet@.authorizes(quote.total_cost, now) => {
                    &&& result == Some(quote.as_result())
                    &&& final(self).wallet@ == ExecutionEngine::settled(
                        old(self).wallet@,
                        *book,
                        order.side,
                        quote,
                        now,
                    )
                },
                _ => {
                    &&& result is None
                    &&& final(self).wallet@ == old(self).wallet@
                },
            },
            final(self).safety == old(self).safety,
            final(self).detector == old(self).detector,
            final(self).execution_engine == old(self).execution_engine,
    {
        self.execution_engine.execute(book, order.size, order.side, &mut self.wallet, draw, now)
    }

    /// Stops the engine for good where the wallet's permission is revoked or
    /// has expired at `now`, in seconds, and says whether the engine may
    /// still trade.
    pub fn observe_permission(&mut self, now: u64) -> (alive: bool)
        ensures
            alive == (old(self).wallet@.usable(now) && old(self).safety@.status
                != EngineStatus::Stopped),
            final(self).safety@ == (SafetyState {
                status: if alive {
                    old(self).safety@.status
                } else {
                    EngineStatus::Stopped
                },
                ..old(self).safety@
            }),
            final(self).wallet == old(self).wallet,
            final(self).detector == old(self).detector,
            final(self).execution_engine == old(self).execution_engine,
    {
        if !self.wallet.is_usable(now) {
            self.safety.stop();
        }
        match self.safety.status() {
            EngineStatus::Stopped => false,
            _ => true,
        }
    }
}

} // verus!
