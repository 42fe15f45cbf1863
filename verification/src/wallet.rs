//! The spend-permission ledger: a daily allowance that every simulated spend
//! must be authorized against before it is recorded.

use crate::lookup::{
    distinct, first_index, lemma_first_index, lemma_first_index_is, lemma_first_index_none,
    lemma_push_keeps_distinct, lemma_removal_keeps_distinct,
};
use crate::types::Side;
use vstd::prelude::*;

verus! {

/// Length of the allowance window, in seconds.
pub const WINDOW_SECS: u64 = 86_400;

/// A holding the wallet keeps track of, one per token.
#[derive(Debug)]
pub struct Position {
    pub token_id: String,
    pub side: Side,
    pub size: u64,
    pub entry_price: u64,
    pub entry_time: u64,
}

impl Clone for Position {
    fn clone(&self) -> (r: Self)
        ensures
            r == *self,
    {
        Position {
            token_id: self.token_id.clone(),
            side: self.side,
            size: self.size,
            entry_price: self.entry_price,
            entry_time: self.entry_time,
        }
    }
}

/// The token of each position, in order.
pub open spec fn token_keys(positions: Seq<Position>) -> Seq<Seq<char>> {
    positions.map_values(|p: Position| p.token_id@)
}

/// `positions` with `position` in the place of the one held for the same
/// token, or added at the end where there is none.
pub open spec fn upserted(positions: Seq<Position>, position: Position) -> Seq<Position> {
    match first_index(token_keys(positions), position.token_id@) {
        Some(i) => positions.update(i, position),
        None => positions.push(position),
    }
}

/// `positions` without the one held for `token`.
pub open spec fn without(positions: Seq<Position>, token: Seq<char>) -> Seq<Position> {
    match first_index(token_keys(positions), token) {
        Some(i) => positions.remove(i),
        None => positions,
    }
}

/// Recording a holding keeps the tokens on record distinct.
pub proof fn lemma_upsert_keeps_distinct(positions: Seq<Position>, position: Position)
    requires
        distinct(token_keys(positions)),
    ensures
        distinct(token_keys(upserted(positions, position))),
{
    let keys = token_keys(positions);
    match first_index(keys, position.token_id@) {
        Some(i) => {
            lemma_first_index(keys, position.token_id@);
            assert(token_keys(positions.update(i, position)) =~= keys);
        },
        None => {
            lemma_push_keeps_distinct(keys, position.token_id@);
            assert(token_keys(positions.push(position)) =~= keys.push(position.token_id@));
        },
    }
}

/// Index of the position held for `token`.
pub fn find_position(positions: &Vec<Position>, token: &String) -> (found: Option<usize>)
    ensures
        match found {
            Some(i) => i < positions@.len() && first_index(token_keys(positions@), token@) == Some(
                i as int,
            ),
            None => first_index(token_keys(positions@), token@) is None,
        },
{
    let mut i: usize = 0;
    while i < positions.len()
        invariant
            i <= positions.len(),
            forall|j: int| 0 <= j < i ==> token_keys(positions@)[j] != token@,
        decreases positions.len() - i,
    {
        if positions[i].token_id == *token {
            proof {
                lemma_first_index_is(token_keys(positions@), token@, i as int);
            }
            return Some(i);
        }
        i = i + 1;
    }
    proof {
        lemma_first_index_none(token_keys(positions@), token@);
    }
    None
}

/// What a wallet holds.
pub struct WalletState {
    pub daily_limit: u64,
    pub spent_today: u64,
    pub last_reset: u64,
    pub expires_at: Option<u64>,
    pub revoked: bool,
    pub positions: Seq<Position>,
    pub total_trades: u32,
    pub winning_trades: u32,
}

impl WalletState {
    /// A wallet that has spent nothing, holds nothing, and whose first
    /// window opens at `now`.
    pub open spec fn fresh(daily_limit: u64, now: u64) -> WalletState {
        WalletState {
            daily_limit,
            spent_today: 0,
            last_reset: now,
            expires_at: None,
            revoked: false,
            positions: Seq::empty(),
            total_trades: 0,
            winning_trades: 0,
        }
    }

    /// No more has been spent in the window than the limit allows.
    pub open spec fn within_limit(self) -> bool {
        self.spent_today <= self.daily_limit
    }

    /// The window that `last_reset` opened has run its full length at `now`.
    pub open spec fn window_over(self, now: u64) -> bool {
        now >= self.last_reset && now - self.last_reset >= WINDOW_SECS
    }

    /// The state as read at `now`: a window that is over is replaced by a
    /// fresh one that starts at `now` with nothing spent.
    pub open spec fn rolled(self, now: u64) -> WalletState {
        if self.window_over(now) {
            WalletState { spent_today: 0, last_reset: now, ..self }
        } else {
            self
        }
    }

    /// The permission is neither revoked nor expired at `now`.
    pub open spec fn usable(self, now: u64) -> bool {
        !self.revoked && match self.expires_at {
            Some(end) => end > now,
            None => true,
        }
    }

    /// A spend of `amount` at `now` is permitted: the permission is usable and
    /// the amount fits in what is left of the current window.
    pub open spec fn authorizes(self, amount: int, now: u64) -> bool {
        self.usable(now) && self.rolled(now).spent_today + amount <= self.daily_limit
    }

    /// The state after an attempt to spend `amount` at `now`: the window is
    /// rolled, and the amount is added where it is permitted.
    pub open spec fn charged(self, amount: int, now: u64) -> WalletState {
        let current = self.rolled(now);
        if self.authorizes(amount, now) {
            WalletState { spent_today: (current.spent_today + amount) as u64, ..current }
        } else {
            current
        }
    }

    /// The state with one more trade tallied. The tally stops at the top of
    /// its range.
    pub open spec fn counted(self, is_winner: bool) -> WalletState {
        if self.total_trades == u32::MAX {
            self
        } else {
            WalletState {
                total_trades: (self.total_trades + 1) as u32,
                winning_trades: if is_winner {
                    (self.winning_trades + 1) as u32
                } else {
                    self.winning_trades
                },
                ..self
            }
        }
    }
}

/// One call on the ledger.
pub enum LedgerCall {
    /// [`Wallet::check_permission`] for an amount at a time.
    Authorize { amount: u64, now: u64 },
    /// [`Wallet::record_spend`] of an amount at a time.
    Commit { amount: u64, now: u64 },
}

/// The state that a call leaves behind.
pub open spec fn after_call(state: WalletState, call: LedgerCall) -> WalletState {
    match call {
        LedgerCall::Authorize { amount, now } => state.rolled(now),
        LedgerCall::Commit { amount, now } => state.charged(amount as int, now),
    }
}

/// The state that a run of calls leaves behind.
pub open spec fn after_calls(state: WalletState, calls: Seq<LedgerCall>) -> WalletState
    decreases calls.len(),
{
    if calls.len() == 0 {
        state
    } else {
        after_call(after_calls(state, calls.drop_last()), calls.last())
    }
}

/// Whatever is authorized and committed, in whatever order and at whatever
/// times, the spend of the window never exceeds the daily limit, and the limit
/// itself does not move.
pub proof fn lemma_spend_never_exceeds_limit(state: WalletState, calls: Seq<LedgerCall>)
    requires
        state.within_limit(),
    ensures
        after_calls(state, calls).within_limit(),
        after_calls(state, calls).daily_limit == state.daily_limit,
    decreases calls.len(),
{
    if calls.len() > 0 {
        lemma_spend_never_exceeds_limit(state, calls.drop_last());
    }
}

/// The daily spend permission granted to the agent, with the holdings and
/// trade tally recorded against it.
///
/// The spend counter moves only through [`Wallet::record_spend`], and never
/// past the daily limit.
#[derive(Debug)]
pub struct Wallet {
    daily_limit: u64,
    spent_today: u64,
    last_reset: u64,
    expires_at: Option<u64>,
    revoked: bool,
    positions: Vec<Position>,
    total_trades: u32,
    winning_trades: u32,
}

impl View for Wallet {
    type V = WalletState;

    closed spec fn view(&self) -> WalletState {
        WalletState {
            daily_limit: self.daily_limit,
            spent_today: self.spent_today,
            last_reset: self.last_reset,
            expires_at: self.expires_at,
            revoked: self.revoked,
            positions: self.positions@,
            total_trades: self.total_trades,
            winning_trades: self.winning_trades,
        }
    }
}

impl Wallet {
    #[verifier::type_invariant]
    spec fn inv(&self) -> bool {
        &&& self.spent_today <= self.daily_limit
        &&& self.winning_trades <= self.total_trades
        &&& distinct(token_keys(self.positions@))
    }

    /// A wallet with the given daily limit, whose first window opens at `now`.
    pub fn new(daily_limit: u64, now: u64) -> (wallet: Self)
        ensures
            wallet@ == WalletState::fresh(daily_limit, now),
    {
        Self {
            daily_limit,
            spent_today: 0,
            last_reset: now,
            expires_at: None,
            revoked: false,
            positions: Vec::new(),
            total_trades: 0,
            winning_trades: 0,
        }
    }

    pub fn daily_limit(&self) -> (limit: u64)
        ensures
            limit == self@.daily_limit,
    {
        self.daily_limit
    }

    /// The amount spent in the current window; never more than the limit.
    pub fn spent_today(&self) -> (spent: u64)
        ensures
            spent == self@.spent_today,
            spent <= self@.daily_limit,
    {
        proof {
            use_type_invariant(self);
        }
        self.spent_today
    }

    pub fn last_reset(&self) -> (start: u64)
        ensures
            start == self@.last_reset,
    {
        self.last_reset
    }

    pub fn expires_at(&self) -> (end: Option<u64>)
        ensures
            end == self@.expires_at,
    {
        self.expires_at
    }

    pub fn is_revoked(&self) -> (revoked: bool)
        ensures
            revoked == self@.revoked,
    {
        self.revoked
    }

    /// The holdings on record: at most one per token.
    pub fn positions(&self) -> (held: &Vec<Position>)
        ensures
            held@ == self@.positions,
            distinct(token_keys(held@)),
    {
        proof {
            use_type_invariant(self);
        }
        &self.positions
    }

    pub fn total_trades(&self) -> (count: u32)
        ensures
            count == self@.total_trades,
    {
        self.total_trades
    }

    /// The trades tallied as winners; never more than the trades tallied.
    pub fn winning_trades(&self) -> (count: u32)
        ensures
            count == self@.winning_trades,
            count <= self@.total_trades,
    {
        proof {
            use_type_invariant(self);
        }
        self.winning_trades
    }

    /// Whether the permission is neither revoked nor expired at `now`.
    pub fn is_usable(&self, now: u64) -> (ok: bool)
        ensures
            ok == self@.usable(now),
    {
        !self.revoked && match self.expires_at {
            Some(end) => end > now,
            None => true,
        }
    }

    /// Whether a spend of `amount` at `now` would be permitted. Nothing
    /// changes.
    pub fn is_authorized(&self, amount: u64, now: u64) -> (ok: bool)
        ensures
            ok == self@.authorizes(amount as int, now),
    {
        proof {
            use_type_invariant(self);
        }
        let spent = if now >= self.last_reset && now - self.last_reset >= WINDOW_SECS {
            0
        } else {
            self.spent_today
        };
        self.is_usable(now) && amount <= self.daily_limit - spent
    }

    /// Opens a fresh window where the current one is over at `now`.
    fn check_reset(&mut self, now: u64)
        ensures
            final(self)@ == old(self)@.rolled(now),
    {
        proof {
            use_type_invariant(&*self);
        }
        if now >= self.last_reset && now - self.last_reset >= WINDOW_SECS {
            self.spent_today = 0;
            self.last_reset = now;
        }
    }

    /// Rolls the window, then says whether a spend of `amount` is permitted.
    pub fn check_permission(&mut self, amount: u64, now: u64) -> (ok: bool)
        ensures
            ok == old(self)@.authorizes(amount as int, now),
            final(self)@ == old(self)@.rolled(now),
            final(self)@.within_limit(),
    {
        self.check_reset(now);
        proof {
            use_type_invariant(&*self);
        }
        self.is_usable(now) && amount <= self.daily_limit - self.spent_today
    }

    /// Rolls the window, then adds `amount` to the spend of the window where
    /// that is permitted, and says whether it was. A spend that is not
    /// permitted is not recorded.
    pub fn record_spend(&mut self, amount: u64, now: u64) -> (ok: bool)
        ensures
            ok == old(self)@.authorizes(amount as int, now),
            final(self)@ == old(self)@.charged(amount as int, now),
            final(self)@.within_limit(),
    {
        if self.check_permission(amount, now) {
            proof {
                use_type_invariant(&*self);
            }
            self.spent_today = self.spent_today + amount;
            true
        } else {
            false
        }
    }

    /// Withdraws the permission for good: nothing is authorized afterwards.
    pub fn revoke(&mut self)
        ensures
            final(self)@ == (WalletState { revoked: true, ..old(self)@ }),
    {
        proof {
            use_type_invariant(&*self);
        }
        self.revoked = true;
    }

    /// Sets or clears the time at which the permission ends.
    pub fn set_expiry(&mut self, expires_at: Option<u64>)
        ensures
            final(self)@ == (WalletState { expires_at, ..old(self)@ }),
    {
        proof {
            use_type_invariant(&*self);
        }
        self.expires_at = expires_at;
    }

    /// Records a holding. One already on record for the same token is
    /// replaced.
    pub fn open_position(
        &mut self,
        token_id: String,
        side: Side,
        size: u64,
        price: u64,
        timestamp: u64,
    )
        ensures
            final(self)@ == (WalletState {
                positions: upserted(
                    old(self)@.positions,
                    Position { token_id, side, size, entry_price: price, entry_time: timestamp },
                ),
                ..old(self)@
            }),
    {
        proof {
            use_type_invariant(&*self);
        }
        let found = find_position(&self.positions, &token_id);
        let position = Position { token_id, side, size, entry_price: price, entry_time: timestamp };
        proof {
            lemma_upsert_keeps_distinct(self.positions@, position);
        }
        let mut held: Vec<Position> = Vec::new();
        core::mem::swap(&mut self.positions, &mut held);
        match found {
            Some(i) => {
                held[i] = position;
            },
            None => {
                held.push(position);
            },
        }
        core::mem::swap(&mut self.positions, &mut held);
    }

    /// Drops the holding on record for `token_id`, if there is one.
    pub fn close_position(&mut self, token_id: &str, _exit_price: u64)
        ensures
            final(self)@ == (WalletState {
                positions: without(old(self)@.positions, token_id@),
                ..old(self)@
            }),
    {
        proof {
            use_type_invariant(&*self);
        }
        let key = token_id.to_owned();
        match find_position(&self.positions, &key) {
            Some(i) => {
                proof {
                    lemma_removal_keeps_distinct(token_keys(self.positions@), i as int);
                    assert(token_keys(self.positions@.remove(i as int)) =~= token_keys(
                        self.positions@,
                    ).remove(i as int));
                }
                let mut held: Vec<Position> = Vec::new();
                core::mem::swap(&mut self.positions, &mut held);
                held.remove(i);
                core::mem::swap(&mut self.positions, &mut held);
            },
            None => {},
        }
    }

    /// Tallies one trade.
    pub fn record_trade(&mut self, is_winner: bool)
        ensures
            final(self)@ == old(self)@.counted(is_winner),
    {
        proof {
            use_type_invariant(&*self);
        }
        if self.total_trades < u32::MAX {
            self.total_trades = self.total_trades + 1;
            if is_winner {
                self.winning_trades = self.winning_trades + 1;
            }
        }
    }
}

impl Clone for Wallet {
    fn clone(&self) -> (copy: Self)
        ensures
            copy@ == self@,
    {
        proof {
            use_type_invariant(self);
        }
        Wallet {
            daily_limit: self.daily_limit,
            spent_today: self.spent_today,
            last_reset: self.last_reset,
            expires_at: self.expires_at,
            revoked: self.revoked,
            positions: self.positions.clone(),
            total_trades: self.total_trades,
            winning_trades: self.winning_trades,
        }
    }
}

} // verus!
