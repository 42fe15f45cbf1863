//! Open positions, the conditions that close them, and the record of what
//! they realized.

use crate::fixed::{clamp_i64, mul_scaled, narrow_i64, scaled_product, SCALE};
use crate::lookup::{
    distinct, first_index, lemma_first_index, lemma_first_index_is, lemma_first_index_none,
    lemma_push_keeps_distinct, lemma_removal_keeps_distinct, lemma_selection_keeps_distinct,
};
use crate::types::{find_market, market_ids, price_at, spread_of, Market, Side};
use vstd::prelude::*;

verus! {

/// An open position in a market.
#[derive(Debug)]
pub struct Position {
    pub market_id: String,
    pub token_id: String,
    pub side: Side,
    pub size: u64,
    pub entry_price: u64,
    pub entry_time: u64,
    /// Spread of the market when the position was opened.
    pub entry_spread: u64,
}

/// Why a position was closed.
#[derive(Debug, Clone, Copy, PartialEq, Eq, Structural)]
pub enum ExitReason {
    /// The spread narrowed below the profit target.
    MeanReversion,
    /// Kept for records made elsewhere; closing by spread is always
    /// `MeanReversion`.
    ProfitTarget,
    /// The spread widened past the stop.
    StopLoss,
    /// The position was held too long.
    Timeout,
    /// Closed on request.
    Manual,
}

/// A closed position and what it realized.
#[derive(Debug)]
pub struct ExitResult {
    pub position: Position,
    pub exit_price: u64,
    pub exit_time: u64,
    pub reason: ExitReason,
    /// Realized profit or loss, net of fees.
    pub pnl: i64,
    pub fees: u64,
}

impl Clone for Position {
    fn clone(&self) -> (r: Self)
        ensures
            r == *self,
    {
        Position {
            market_id: self.market_id.clone(),
            token_id: self.token_id.clone(),
            side: self.side,
            size: self.size,
            entry_price: self.entry_price,
            entry_time: self.entry_time,
            entry_spread: self.entry_spread,
        }
    }
}

impl Clone for ExitResult {
    fn clone(&self) -> (r: Self)
        ensures
            r == *self,
    {
        ExitResult {
            position: self.position.clone(),
            exit_price: self.exit_price,
            exit_time: self.exit_time,
            reason: self.reason,
            pnl: self.pnl,
            fees: self.fees,
        }
    }
}

/// The rules by which positions are closed.
#[derive(Debug, Clone, Copy, PartialEq, Eq, Structural)]
pub struct ExitRules {
    /// A position is closed once the spread is strictly below this.
    pub profit_target_spread: u64,
    /// A position is closed once the spread is strictly above its entry
    /// spread plus this.
    pub stop_loss_spread: u64,
    /// A position is closed once it has been held strictly longer than this,
    /// in seconds.
    pub max_hold_time: u64,
}

/// The token of each position, in order.
pub open spec fn token_keys(positions: Seq<Position>) -> Seq<Seq<char>> {
    positions.map_values(|p: Position| p.token_id@)
}

/// `positions` with `position` in the place of the one open for the same
/// token, or added at the end where there is none.
pub open spec fn upserted(positions: Seq<Position>, position: Position) -> Seq<Position> {
    match first_index(token_keys(positions), position.token_id@) {
        Some(i) => positions.update(i, position),
        None => positions.push(position),
    }
}

/// Seconds from `entry_time` to `now`; none where the clock reads earlier.
pub open spec fn held_for(entry_time: u64, now: u64) -> u64 {
    if now >= entry_time {
        (now - entry_time) as u64
    } else {
        0
    }
}

impl ExitRules {
    /// The reason to close a position, if any. The conditions are tried in
    /// order and the first that holds decides: the spread has narrowed below
    /// the target; the spread has widened past entry plus stop; the position
    /// has been held too long.
    pub open spec fn reason(
        self,
        current_spread: u64,
        entry_spread: u64,
        hold_time: u64,
    ) -> Option<ExitReason> {
        if current_spread < self.profit_target_spread {
            Some(ExitReason::MeanReversion)
        } else if current_spread > entry_spread + self.stop_loss_spread {
            Some(ExitReason::StopLoss)
        } else if hold_time > self.max_hold_time {
            Some(ExitReason::Timeout)
        } else {
            None
        }
    }
}

/// Fee for closing `size` at `exit_price`.
pub open spec fn exit_fees(size: u64, exit_price: u64, fee_rate: u64) -> int {
    scaled_product(scaled_product(size as int, exit_price as int), fee_rate as int)
}

/// Profit of moving `size` from price `from` to price `to`, before fees.
pub open spec fn price_gain(from: u64, to: u64, size: u64) -> int {
    if to >= from {
        scaled_product(to - from, size as int)
    } else {
        -scaled_product(from - to, size as int)
    }
}

/// Realized profit or loss of closing a position at `exit_price`: for a
/// purchase the rise in price times the size, for a sale the fall in price
/// times the size, less the exit fee.
pub open spec fn realized_pnl(position: Position, exit_price: u64, fee_rate: u64) -> int {
    (match position.side {
        Side::Buy => price_gain(position.entry_price, exit_price, position.size),
        Side::Sell => price_gain(exit_price, position.entry_price, position.size),
    }) - exit_fees(position.size, exit_price, fee_rate)
}

/// The record of closing `position` at `exit_price` for `reason`.
pub open spec fn closed_as(
    position: Position,
    exit_price: u64,
    exit_time: u64,
    reason: ExitReason,
    fee_rate: u64,
) -> ExitResult {
    ExitResult {
        position,
        exit_price,
        exit_time,
        reason,
        pnl: clamp_i64(realized_pnl(position, exit_price, fee_rate)) as i64,
        fees: exit_fees(position.size, exit_price, fee_rate) as u64,
    }
}

/// The price a position is marked at: the first outcome's for a purchase,
/// the second outcome's for a sale.
pub open spec fn mark_price(market: Market, side: Side) -> u64 {
    match side {
        Side::Buy => price_at(market.outcome_prices@, 0),
        Side::Sell => price_at(market.outcome_prices@, 1),
    }
}

/// The exit of `position` at `now`, if the first of `markets` that carries
/// its market's identifier gives a reason to close it.
pub open spec fn exit_for(
    rules: ExitRules,
    position: Position,
    markets: Seq<Market>,
    now: u64,
    fee_rate: u64,
) -> Option<ExitResult> {
    match first_index(market_ids(markets), position.market_id@) {
        None => None,
        Some(m) => {
            let market = markets[m];
            let current_spread = spread_of(market.outcome_prices@) as u64;
            match rules.reason(
                current_spread,
                position.entry_spread,
                held_for(position.entry_time, now),
            ) {
                None => None,
                Some(reason) => Some(
                    closed_as(position, mark_price(market, position.side), now, reason, fee_rate),
                ),
            }
        },
    }
}

/// The exits among `positions`, in order.
pub open spec fn exits_of(
    rules: ExitRules,
    positions: Seq<Position>,
    markets: Seq<Market>,
    now: u64,
    fee_rate: u64,
) -> Seq<ExitResult>
    decreases positions.len(),
{
    if positions.len() == 0 {
        Seq::empty()
    } else {
        let earlier = exits_of(rules, positions.drop_last(), markets, now, fee_rate);
        match exit_for(rules, positions.last(), markets, now, fee_rate) {
            Some(exit) => earlier.push(exit),
            None => earlier,
        }
    }
}

/// The positions that stay open, in order.
pub open spec fn survivors_of(
    rules: ExitRules,
    positions: Seq<Position>,
    markets: Seq<Market>,
    now: u64,
    fee_rate: u64,
) -> Seq<Position>
    decreases positions.len(),
{
    if positions.len() == 0 {
        Seq::empty()
    } else {
        let earlier = survivors_of(rules, positions.drop_last(), markets, now, fee_rate);
        match exit_for(rules, positions.last(), markets, now, fee_rate) {
            Some(_) => earlier,
            None => earlier.push(positions.last()),
        }
    }
}

/// Sum of the realized profit and loss over a history.
pub open spec fn pnl_total(history: Seq<ExitResult>) -> int
    decreases history.len(),
{
    if history.len() == 0 {
        0
    } else {
        pnl_total(history.drop_last()) + history.last().pnl
    }
}

/// Number of exits in a history that made a profit.
pub open spec fn wins(history: Seq<ExitResult>) -> int
    decreases history.len(),
{
    if history.len() == 0 {
        0
    } else {
        wins(history.drop_last()) + if history.last().pnl > 0 {
            1int
        } else {
            0int
        }
    }
}

/// Share of the exits in a history that made a profit; zero for an empty
/// history.
pub open spec fn win_ratio(history: Seq<ExitResult>) -> int {
    if history.len() == 0 {
        0
    } else {
        wins(history) * (SCALE as int) / (history.len() as int)
    }
}

/// The total over a history lies within as many times the range of one
/// exit as there are exits.
pub proof fn lemma_pnl_total_bounds(history: Seq<ExitResult>)
    ensures
        history.len() * i64::MIN <= pnl_total(history) <= history.len() * i64::MAX,
    decreases history.len(),
{
    if history.len() > 0 {
        lemma_pnl_total_bounds(history.drop_last());
        assert((history.len() - 1) * i64::MAX + i64::MAX == history.len() * i64::MAX)
            by (nonlinear_arith);
        assert((history.len() - 1) * i64::MIN + i64::MIN == history.len() * i64::MIN)
            by (nonlinear_arith);
    } else {
        assert(0 * i64::MIN == 0 && 0 * i64::MAX == 0);
    }
}

/// There are no more wins than exits.
pub proof fn lemma_wins_bounds(history: Seq<ExitResult>)
    ensures
        0 <= wins(history) <= history.len(),
    decreases history.len(),
{
    if history.len() > 0 {
        lemma_wins_bounds(history.drop_last());
    }
}

/// Every position either exits or stays open: the exits and the survivors
/// together are as many as the positions.
pub proof fn lemma_exits_and_survivors_partition(
    rules: ExitRules,
    positions: Seq<Position>,
    markets: Seq<Market>,
    now: u64,
    fee_rate: u64,
)
    ensures
        exits_of(rules, positions, markets, now, fee_rate).len() + survivors_of(
            rules,
            positions,
            markets,
            now,
            fee_rate,
        ).len() == positions.len(),
    decreases positions.len(),
{
    if positions.len() > 0 {
        lemma_exits_and_survivors_partition(rules, positions.drop_last(), markets, now, fee_rate);
    }
}

/// Whatever else holds, a spread below the profit target closes a position
/// as a mean reversion: that condition is tried first.
pub proof fn lemma_mean_reversion_decides_first(
    rules: ExitRules,
    current_spread: u64,
    entry_spread: u64,
    hold_time: u64,
)
    requires
        current_spread < rules.profit_target_spread,
    ensures
        rules.reason(current_spread, entry_spread, hold_time) == Some(ExitReason::MeanReversion),
{
}

/// A stop-loss is decided only where the spread has not narrowed below the
/// target, and a timeout only where neither spread condition holds.
pub proof fn lemma_exit_reasons_in_order(
    rules: ExitRules,
    current_spread: u64,
    entry_spread: u64,
    hold_time: u64,
)
    ensures
        rules.reason(current_spread, entry_spread, hold_time) == Some(ExitReason::StopLoss) <==> (
        current_spread >= rules.profit_target_spread && current_spread > entry_spread
            + rules.stop_loss_spread),
        rules.reason(current_spread, entry_spread, hold_time) == Some(ExitReason::Timeout) <==> (
        current_spread >= rules.profit_target_spread && current_spread <= entry_spread
            + rules.stop_loss_spread && hold_time > rules.max_hold_time),
        rules.reason(current_spread, entry_spread, hold_time) is None <==> (current_spread
            >= rules.profit_target_spread && current_spread <= entry_spread
            + rules.stop_loss_spread && hold_time <= rules.max_hold_time),
{
}

/// Index of the position open for `token`.
pub fn find_position(positions: &Vec<Position>, token: &String) -> (found: Option<usize>)
    ensures
        match found {
            Some(i) => i < positions@.len() && first_index(token_keys(positions@), token@) == Some(
                i as int,
            ),
            None => first_index(token_keys(positions@), token@) is None,
        },
{
    let mut i: usize = 0;
    while i < positions.len()
        invariant
            i <= positions.len(),
            forall|j: int| 0 <= j < i ==> token_keys(positions@)[j] != token@,
        decreases positions.len() - i,
    {
        if positions[i].token_id == *token {
            proof {
                lemma_first_index_is(token_keys(positions@), token@, i as int);
            }
            return Some(i);
        }
        i = i + 1;
    }
    proof {
        lemma_first_index_none(token_keys(positions@), token@);
    }
    None
}

/// Closes `position` at `exit_price` for `reason`.
pub fn close_out(
    position: Position,
    exit_price: u64,
    exit_time: u64,
    reason: ExitReason,
    fee_rate: u64,
) -> (exit: ExitResult)
    ensures
        exit == closed_as(position, exit_price, exit_time, reason, fee_rate),
{
    let (low, high) = match position.side {
        Side::Buy => (position.entry_price, exit_price),
        Side::Sell => (exit_price, position.entry_price),
    };
    let gross: i128 = if high >= low {
        mul_scaled(high - low, position.size) as i128
    } else {
        -(mul_scaled(low - high, position.size) as i128)
    };
    let fees = mul_scaled(mul_scaled(position.size, exit_price), fee_rate);
    let pnl = narrow_i64(gross - fees as i128);
    ExitResult { position, exit_price, exit_time, reason, pnl, fees }
}

impl ExitRules {
    /// The reason to close a position, if any; see [`ExitRules::reason`].
    pub fn decide(
        &self,
        current_spread: u64,
        entry_spread: u64,
        hold_time: u64,
    ) -> (decision: Option<ExitReason>)
        ensures
            decision == self.reason(current_spread, entry_spread, hold_time),
    {
        if current_spread < self.profit_target_spread {
            Some(ExitReason::MeanReversion)
        } else if current_spread as u128 > entry_spread as u128 + self.stop_loss_spread as u128 {
            Some(ExitReason::StopLoss)
        } else if hold_time > self.max_hold_time {
            Some(ExitReason::Timeout)
        } else {
            None
        }
    }

    /// The exit of `position` at `now`, if the first of `markets` that
    /// carries its market's identifier gives a reason to close it.
    pub fn evaluate(
        &self,
        position: &Position,
        markets: &[Market],
        now: u64,
        fee_rate: u64,
    ) -> (exit: Option<ExitResult>)
        ensures
            exit == exit_for(*self, *position, markets@, now, fee_rate),
    {
        let m = match find_market(markets, &position.market_id) {
            Some(m) => m,
            None => {
                return None;
            },
        };
        let market = &markets[m];
        let current_spread = market.get_spread();
        let current_price = match position.side {
            Side::Buy => market.yes_price(),
            Side::Sell => market.no_price(),
        };
        let hold_time = if now >= position.entry_time {
            now - position.entry_time
        } else {
            0
        };
        match self.decide(current_spread, position.entry_spread, hold_time) {
            Some(reason) => Some(close_out(position.clone(), current_price, now, reason, fee_rate)),
            None => None,
        }
    }
}

/// What a position manager holds.
pub struct PositionBook {
    pub rules: ExitRules,
    /// The open positions, at most one per token.
    pub positions: Seq<Position>,
    /// Every exit so far, oldest first.
    pub history: Seq<ExitResult>,
}

/// Tracks open positions, closes them when an exit condition holds, and
/// keeps the history of exits that the statistics are computed from.
#[derive(Debug)]
pub struct PositionManager {
    positions: Vec<Position>,
    rules: ExitRules,
    history: Vec<ExitResult>,
}

impl View for PositionManager {
    type V = PositionBook;

    closed spec fn view(&self) -> PositionBook {
        PositionBook { rules: self.rules, positions: self.positions@, history: self.history@ }
    }
}

/// Opening a position keeps the tokens of the open positions distinct.
proof fn lemma_upsert_keeps_distinct(positions: Seq<Position>, position: Position)
    requires
        distinct(token_keys(positions)),
    ensures
        distinct(token_keys(upserted(positions, position))),
{
    let keys = token_keys(positions);
    match first_index(keys, position.token_id@) {
        Some(i) => {
            lemma_first_index(keys, position.token_id@);
            assert(token_keys(positions.update(i, position)) =~= keys);
        },
        None => {
            lemma_push_keeps_distinct(keys, position.token_id@);
            assert(token_keys(positions.push(position)) =~= keys.push(position.token_id@));
        },
    }
}

impl PositionManager {
    #[verifier::type_invariant]
    spec fn inv(&self) -> bool {
        distinct(token_keys(self.positions@))
    }

    /// A manager with no positions and no history.
    pub fn new(
        profit_target_spread: u64,
        stop_loss_spread: u64,
        max_hold_time: u64,
    ) -> (manager: Self)
        ensures
            manager@ == (PositionBook {
                rules: ExitRules { profit_target_spread, stop_loss_spread, max_hold_time },
                positions: Seq::empty(),
                history: Seq::empty(),
            }),
    {
        Self {
            positions: Vec::new(),
            rules: ExitRules { profit_target_spread, stop_loss_spread, max_hold_time },
            history: Vec::new(),
        }
    }

    /// Opens a position. One already open for the same token is replaced.
    pub fn open_position(&mut self, position: Position)
        ensures
            final(self)@ == (PositionBook {
                positions: upserted(old(self)@.positions, position),
                ..old(self)@
            }),
    {
        proof {
            use_type_invariant(&*self);
            lemma_upsert_keeps_distinct(self.positions@, position);
        }
        let found = find_position(&self.positions, &position.token_id);
        let mut held: Vec<Position> = Vec::new();
        core::mem::swap(&mut self.positions, &mut held);
        match found {
            Some(i) => {
                held[i] = position;
            },
            None => {
                held.push(position);
            },
        }
        core::mem::swap(&mut self.positions, &mut held);
    }

    /// The open positions: at most one per token.
    pub fn get_positions(&self) -> (open: Vec<&Position>)
        ensures
            open@.len() == self@.positions.len(),
            forall|i: int| 0 <= i < open@.len() ==> *open@[i] == self@.positions[i],
            distinct(token_keys(self@.positions)),
    {
        proof {
            use_type_invariant(self);
        }
        let mut open: Vec<&Position> = Vec::new();
        let mut i: usize = 0;
        while i < self.positions.len()
            invariant
                i <= self.positions.len(),
                open@.len() == i,
                forall|j: int| 0 <= j < i ==> *open@[j] == self.positions@[j],
            decreases self.positions.len() - i,
        {
            open.push(&self.positions[i]);
            i = i + 1;
        }
        open
    }

    /// The position open for `token_id`.
    pub fn get_position(&self, token_id: &str) -> (position: Option<&Position>)
        ensures
            match first_index(token_keys(self@.positions), token_id@) {
                Some(i) => position == Some(&self@.positions[i]),
                None => position is None,
            },
    {
        let key = token_id.to_owned();
        match find_position(&self.positions, &key) {
            Some(i) => Some(&self.positions[i]),
            None => None,
        }
    }

    /// Every exit so far, oldest first.
    pub fn history(&self) -> (history: &Vec<ExitResult>)
        ensures
            history@ == self@.history,
    {
        &self.history
    }

    /// Closes every open position that has a reason to close at
    /// `current_time`, given the current `markets`, and returns the exits in
    /// the order of the positions. The exits are added to the history; the
    /// other positions stay open, untouched.
    pub fn check_exits(
        &mut self,
        markets: &[Market],
        current_time: u64,
        fee_rate: u64,
    ) -> (exits: Vec<ExitResult>)
        ensures
            exits@ == exits_of(
                old(self)@.rules,
                old(self)@.positions,
                markets@,
                current_time,
                fee_rate,
            ),
            final(self)@ == (PositionBook {
                rules: old(self)@.rules,
                positions: survivors_of(
                    old(self)@.rules,
                    old(self)@.positions,
                    markets@,
                    current_time,
                    fee_rate,
                ),
                history: old(self)@.history + exits@,
            }),
    {
        proof {
            use_type_invariant(&*self);
        }
        let rules = self.rules;
        let mut held: Vec<Position> = Vec::new();
        let mut history: Vec<ExitResult> = Vec::new();
        core::mem::swap(&mut self.positions, &mut held);
        core::mem::swap(&mut self.history, &mut history);
        let ghost recorded = history@;
        let ghost mut origin: Seq<int> = Seq::empty();
        let mut exits: Vec<ExitResult> = Vec::new();
        let mut kept: Vec<Position> = Vec::new();
        let mut i: usize = 0;
        while i < held.len()
            invariant
                i <= held.len(),
                exits@ == exits_of(rules, held@.take(i as int), markets@, current_time, fee_rate),
                kept@ == survivors_of(
                    rules,
                    held@.take(i as int),
                    markets@,
                    current_time,
                    fee_rate,
                ),
                history@ == recorded + exits@,
                origin.len() == kept@.len(),
                forall|a: int|
                    0 <= a < kept@.len() ==> 0 <= #[trigger] origin[a] < i && kept@[a]
                        == held@[origin[a]],
                forall|a: int, b: int| 0 <= a < b < kept@.len() ==> origin[a] < origin[b],
            decreases held.len() - i,
        {
            proof {
                assert(held@.take(i + 1).drop_last() =~= held@.take(i as int));
                assert(held@.take(i + 1).last() == held@[i as int]);
            }
            match rules.evaluate(&held[i], markets, current_time, fee_rate) {
                Some(exit) => {
                    history.push(exit.clone());
                    exits.push(exit);
                },
                None => {
                    kept.push(held[i].clone());
                    proof {
                        origin = origin.push(i as int);
                    }
                },
            }
            i = i + 1;
        }
        proof {
            assert(held@.take(i as int) =~= held@);
            lemma_selection_keeps_distinct(token_keys(held@), token_keys(kept@), origin);
        }
        core::mem::swap(&mut self.positions, &mut kept);
        core::mem::swap(&mut self.history, &mut history);
        exits
    }

    /// Closes the position open for `token_id` at `exit_price`, on request.
    /// The exit is added to the history. Nothing happens where no position
    /// is open for the token.
    pub fn close_position(
        &mut self,
        token_id: &str,
        exit_price: u64,
        fee_rate: u64,
        now: u64,
    ) -> (exit: Option<ExitResult>)
        ensures
            match first_index(token_keys(old(self)@.positions), token_id@) {
                Some(i) => {
                    &&& exit == Some(
                        closed_as(
                            old(self)@.positions[i],
                            exit_price,
                            now,
                            ExitReason::Manual,
                            fee_rate,
                        ),
                    )
                    &&& final(self)@ == (PositionBook {
                        positions: old(self)@.positions.remove(i),
                        history: old(self)@.history.push(exit->0),
                        ..old(self)@
                    })
                },
                None => exit is None && final(self)@ == old(self)@,
            },
    {
        proof {
            use_type_invariant(&*self);
        }
        let key = token_id.to_owned();
        let i = match find_position(&self.positions, &key) {
            Some(i) => i,
            None => {
                return None;
            },
        };
        let mut held: Vec<Position> = Vec::new();
        let mut history: Vec<ExitResult> = Vec::new();
        core::mem::swap(&mut self.positions, &mut held);
        core::mem::swap(&mut self.history, &mut history);
        let ghost before = held@;
        let position = held.remove(i);
        let exit = close_out(position, exit_price, now, ExitReason::Manual, fee_rate);
        history.push(exit.clone());
        proof {
            lemma_removal_keeps_distinct(token_keys(before), i as int);
            assert(token_keys(held@) =~= token_keys(before).remove(i as int));
        }
        core::mem::swap(&mut self.positions, &mut held);
        core::mem::swap(&mut self.history, &mut history);
        Some(exit)
    }

    /// Sum of the realized profit and loss over the history.
    pub fn total_pnl(&self) -> (total: i128)
        ensures
            total as int == pnl_total(self@.history),
    {
        let mut total: i128 = 0;
        let mut i: usize = 0;
        while i < self.history.len()
            invariant
                i <= self.history.len(),
                total as int == pnl_total(self.history@.take(i as int)),
            decreases self.history.len() - i,
        {
            proof {
                lemma_pnl_total_bounds(self.history@.take(i as int));
                assert(i * i64::MAX <= 0xFFFF_FFFF_FFFF_FFFF * i64::MAX) by (nonlinear_arith)
                    requires
                        0 <= i <= 0xFFFF_FFFF_FFFF_FFFF,
                ;
                assert(i * i64::MIN >= 0xFFFF_FFFF_FFFF_FFFF * i64::MIN) by (nonlinear_arith)
                    requires
                        0 <= i <= 0xFFFF_FFFF_FFFF_FFFF,
                ;
                assert(self.history@.take(i + 1).drop_last() =~= self.history@.take(i as int));
            }
            total = total + self.history[i].pnl as i128;
            i = i + 1;
        }
        proof {
            assert(self.history@.take(i as int) =~= self.history@);
        }
        total
    }

    /// Share of the exits in the history that made a profit; zero while the
    /// history is empty.
    pub fn win_rate(&self) -> (rate: u64)
        ensures
            rate as int == win_ratio(self@.history),
            rate <= SCALE,
    {
        if self.history.len() == 0 {
            return 0;
        }
        let mut won: usize = 0;
        let mut i: usize = 0;
        while i < self.history.len()
            invariant
                i <= self.history.len(),
                won as int == wins(self.history@.take(i as int)),
                won <= i,
            decreases self.history.len() - i,
        {
            proof {
                assert(self.history@.take(i + 1).drop_last() =~= self.history@.take(i as int));
            }
            if self.history[i].pnl > 0 {
                won = won + 1;
            }
            i = i + 1;
        }
        proof {
            assert(self.history@.take(i as int) =~= self.history@);
            assert(won * SCALE <= 0xFFFF_FFFF_FFFF_FFFF * 1_000_000) by (nonlinear_arith)
                requires
                    0 <= won <= 0xFFFF_FFFF_FFFF_FFFF,
                    SCALE == 1_000_000,
            ;
            assert(won * SCALE / (i as int) <= SCALE) by (nonlinear_arith)
                requires
                    0 <= won <= i,
                    i > 0,
                    SCALE == 1_000_000,
            ;
        }
        ((won as u128 * SCALE as u128) / (self.history.len() as u128)) as u64
    }

    /// Number of exits in the history.
    pub fn trade_count(&self) -> (count: usize)
        ensures
            count == self@.history.len(),
    {
        self.history.len()
    }
}

} // verus!
