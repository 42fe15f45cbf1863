//! Market snapshots, order books and the values derived from them.
//!
//! Every price, size and ratio is a count of millionths (see [`crate::fixed`]).

use crate::fixed::{clamp_u64, distance, lemma_product_fits, SCALE};
use crate::lookup::{first_index, lemma_first_index_is, lemma_first_index_none};
use vstd::prelude::*;

verus! {

/// Tolerance below which the outcome prices of a market count as summing to
/// one. It absorbs rounding in the price feed; it is not a trading threshold.
pub const BALANCE_TOLERANCE: u64 = 1_000;

/// Order side.
#[derive(Debug, Clone, Copy, PartialEq, Eq, Structural)]
pub enum Side {
    Buy,
    Sell,
}

/// Snapshot of a prediction market.
#[derive(Debug)]
pub struct Market {
    pub id: String,
    pub question: String,
    pub slug: String,
    pub outcomes: Vec<String>,
    /// One price per outcome, each normally between zero and one.
    pub outcome_prices: Vec<u64>,
    /// One tradable token per outcome, aligned with `outcome_prices`.
    pub clob_token_ids: Vec<String>,
    pub best_bid: Option<u64>,
    pub best_ask: Option<u64>,
    /// Maker fee in basis points.
    pub maker_base_fee: u32,
    /// Taker fee in basis points.
    pub taker_base_fee: u32,
    pub liquidity: u64,
    pub volume_24hr: u64,
    pub active: bool,
    pub accepting_orders: bool,
}

/// A single price level of an order book: `size` tokens offered at `price`.
#[derive(Debug, Clone, Copy, PartialEq, Eq, Structural)]
pub struct PriceLevel {
    pub price: u64,
    pub size: u64,
}

/// Order book of one token. Bids are expected best (highest) first and asks
/// best (lowest) first; the book is read as given and never re-sorted.
#[derive(Debug)]
pub struct OrderBook {
    pub token_id: String,
    pub bids: Vec<PriceLevel>,
    pub asks: Vec<PriceLevel>,
    pub timestamp: u64,
}

/// Record of an executed trade.
#[derive(Debug)]
pub struct Trade {
    pub id: String,
    pub token_id: String,
    pub price: u64,
    pub size: u64,
    pub side: Side,
    pub timestamp: u64,
}

/// A detected deviation of a market's outcome prices from one.
#[derive(Debug)]
pub struct ArbitrageSignal {
    pub market_id: String,
    /// How far the summed outcome prices are from one.
    pub spread: u64,
    /// Gross profit per unit before costs; equal to the spread.
    pub edge: u64,
    pub recommended_side: Side,
    pub yes_price: u64,
    pub no_price: u64,
}

/// Outcome of a simulated fill.
#[derive(Debug, Clone, Copy, PartialEq, Eq, Structural)]
pub struct ExecutionResult {
    pub filled_size: u64,
    pub execution_price: u64,
    pub fee_paid: u64,
    pub slippage: u64,
    pub total_cost: u64,
    pub success: bool,
}

impl Clone for Market {
    fn clone(&self) -> (r: Self)
        ensures
            r.id == self.id,
            r.question == self.question,
            r.slug == self.slug,
            r.outcomes@ == self.outcomes@,
            r.outcome_prices@ == self.outcome_prices@,
            r.clob_token_ids@ == self.clob_token_ids@,
            r.best_bid == self.best_bid,
            r.best_ask == self.best_ask,
            r.maker_base_fee == self.maker_base_fee,
            r.taker_base_fee == self.taker_base_fee,
            r.liquidity == self.liquidity,
            r.volume_24hr == self.volume_24hr,
            r.active == self.active,
            r.accepting_orders == self.accepting_orders,
    {
        Market {
            id: self.id.clone(),
            question: self.question.clone(),
            slug: self.slug.clone(),
            outcomes: self.outcomes.clone(),
            outcome_prices: self.outcome_prices.clone(),
            clob_token_ids: self.clob_token_ids.clone(),
            best_bid: self.best_bid,
            best_ask: self.best_ask,
            maker_base_fee: self.maker_base_fee,
            taker_base_fee: self.taker_base_fee,
            liquidity: self.liquidity,
            volume_24hr: self.volume_24hr,
            active: self.active,
            accepting_orders: self.accepting_orders,
        }
    }
}

impl Clone for OrderBook {
    fn clone(&self) -> (r: Self)
        ensures
            r.token_id == self.token_id,
            r.bids@ == self.bids@,
            r.asks@ == self.asks@,
            r.timestamp == self.timestamp,
    {
        OrderBook {
            token_id: self.token_id.clone(),
            bids: self.bids.clone(),
            asks: self.asks.clone(),
            timestamp: self.timestamp,
        }
    }
}

impl Clone for Trade {
    fn clone(&self) -> (r: Self)
        ensures
            r == *self,
    {
        Trade {
            id: self.id.clone(),
            token_id: self.token_id.clone(),
            price: self.price,
            size: self.size,
            side: self.side,
            timestamp: self.timestamp,
        }
    }
}

impl Clone for ArbitrageSignal {
    fn clone(&self) -> (r: Self)
        ensures
            r == *self,
    {
        ArbitrageSignal {
            market_id: self.market_id.clone(),
            spread: self.spread,
            edge: self.edge,
            recommended_side: self.recommended_side,
            yes_price: self.yes_price,
            no_price: self.no_price,
        }
    }
}

/// Sum of a sequence of prices.
pub open spec fn price_total(prices: Seq<u64>) -> int
    decreases prices.len(),
{
    if prices.len() == 0 {
        0
    } else {
        price_total(prices.drop_last()) + prices.last()
    }
}

/// Deviation of the summed prices from one, pinned to 64 bits.
pub open spec fn spread_of(prices: Seq<u64>) -> int {
    clamp_u64(distance(price_total(prices), SCALE as int))
}

/// Whether the summed prices are within the tolerance of one.
pub open spec fn balanced(prices: Seq<u64>) -> bool {
    distance(price_total(prices), SCALE as int) < BALANCE_TOLERANCE
}

/// The price at `index`, or zero where there is none.
pub open spec fn price_at(prices: Seq<u64>, index: int) -> u64 {
    if 0 <= index < prices.len() {
        prices[index]
    } else {
        0
    }
}

/// Total size resting on one side of a book.
pub open spec fn depth(levels: Seq<PriceLevel>) -> int
    decreases levels.len(),
{
    if levels.len() == 0 {
        0
    } else {
        depth(levels.drop_last()) + levels.last().size
    }
}

/// How much of a request for `size` is taken at level `k`: what the levels
/// before it left unfilled, capped at the level's own size.
pub open spec fn taken_at(levels: Seq<PriceLevel>, k: int, size: int) -> int {
    let before = depth(levels.take(k));
    if size <= before {
        0
    } else if size - before >= levels[k].size {
        levels[k].size as int
    } else {
        size - before
    }
}

/// Sum over the levels of size taken times price, for a request of `size`
/// walked from the front of `levels`.
pub open spec fn walk_cost(levels: Seq<PriceLevel>, size: int) -> int
    decreases levels.len(),
{
    if levels.len() == 0 {
        0
    } else {
        walk_cost(levels.drop_last(), size) + taken_at(levels, levels.len() - 1, size)
            * levels.last().price
    }
}

/// How much of a request for `size` the walk takes in all.
pub open spec fn taken_total(levels: Seq<PriceLevel>, size: int) -> int
    decreases levels.len(),
{
    if levels.len() == 0 {
        0
    } else {
        taken_total(levels.drop_last(), size) + taken_at(levels, levels.len() - 1, size)
    }
}

/// The size-weighted average price of a request for `size` walked from the
/// front of `levels`, rounded down; none where the request is empty or the
/// levels cannot fill all of it.
pub open spec fn vwap(levels: Seq<PriceLevel>, size: int) -> Option<int> {
    if size <= 0 || depth(levels) < size {
        None
    } else {
        Some(walk_cost(levels, size) / size)
    }
}

/// A sum of prices is at most as many times the largest price as there are
/// prices.
pub proof fn lemma_price_total_bounds(prices: Seq<u64>)
    ensures
        0 <= price_total(prices) <= prices.len() * u64::MAX,
    decreases prices.len(),
{
    if prices.len() > 0 {
        lemma_price_total_bounds(prices.drop_last());
        assert((prices.len() - 1) * u64::MAX + u64::MAX == prices.len() * u64::MAX)
            by (nonlinear_arith);
    }
}

/// The depth of a side is at most as many times the largest size as there
/// are levels.
pub proof fn lemma_depth_bounds(levels: Seq<PriceLevel>)
    ensures
        0 <= depth(levels) <= levels.len() * u64::MAX,
    decreases levels.len(),
{
    if levels.len() > 0 {
        lemma_depth_bounds(levels.drop_last());
        assert((levels.len() - 1) * u64::MAX + u64::MAX == levels.len() * u64::MAX)
            by (nonlinear_arith);
    }
}

/// The walk takes exactly the size asked for where the levels hold that
/// much, and everything they hold where they do not: nothing is left
/// unfilled in silence, and nothing is taken twice.
pub proof fn lemma_walk_takes_what_is_asked(levels: Seq<PriceLevel>, size: int)
    requires
        size >= 0,
    ensures
        taken_total(levels, size) == (if depth(levels) < size {
            depth(levels)
        } else {
            size
        }),
    decreases levels.len(),
{
    lemma_depth_bounds(levels);
    if levels.len() > 0 {
        let front = levels.drop_last();
        lemma_walk_takes_what_is_asked(front, size);
        lemma_depth_bounds(front);
        assert(levels.take(levels.len() - 1) =~= front);
    }
}

/// Where the book fills a request, the price it reports is the cost of the
/// walk over the size, rounded down: it lies less than one millionth below
/// the true size-weighted average of the prices paid, and the sizes taken
/// add up to the size asked for.
pub proof fn lemma_vwap_is_the_weighted_average(levels: Seq<PriceLevel>, size: int)
    requires
        size > 0,
        depth(levels) >= size,
    ensures
        vwap(levels, size) is Some,
        vwap(levels, size)->0 * size <= walk_cost(levels, size) < (vwap(levels, size)->0 + 1)
            * size,
        taken_total(levels, size) == size,
{
    lemma_walk_takes_what_is_asked(levels, size);
    let cost = walk_cost(levels, size);
    assert(cost / size * size <= cost < (cost / size + 1) * size) by (nonlinear_arith)
        requires
            size > 0,
    ;
}

/// The sum of `prices`, exactly.
pub fn total_price(prices: &Vec<u64>) -> (total: u128)
    ensures
        total as int == price_total(prices@),
{
    let mut total: u128 = 0;
    let mut i: usize = 0;
    while i < prices.len()
        invariant
            i <= prices.len(),
            total as int == price_total(prices@.take(i as int)),
        decreases prices.len() - i,
    {
        proof {
            lemma_price_total_bounds(prices@.take(i as int));
            assert(i * u64::MAX <= usize::MAX * u64::MAX) by (nonlinear_arith)
                requires
                    i <= usize::MAX,
            ;
            assert(usize::MAX * u64::MAX <= 0xFFFF_FFFF_FFFF_FFFF * 0xFFFF_FFFF_FFFF_FFFF)
                by (nonlinear_arith)
                requires
                    usize::MAX <= 0xFFFF_FFFF_FFFF_FFFF,
            ;
            assert(prices@.take(i + 1).drop_last() =~= prices@.take(i as int));
        }
        total = total + prices[i] as u128;
        i = i + 1;
    }
    proof {
        assert(prices@.take(i as int) =~= prices@);
    }
    total
}

/// The total size resting in `levels`, exactly.
pub fn total_depth(levels: &Vec<PriceLevel>) -> (total: u128)
    ensures
        total as int == depth(levels@),
{
    let mut total: u128 = 0;
    let mut i: usize = 0;
    while i < levels.len()
        invariant
            i <= levels.len(),
            total as int == depth(levels@.take(i as int)),
        decreases levels.len() - i,
    {
        proof {
            lemma_depth_bounds(levels@.take(i as int));
            assert(i * u64::MAX <= usize::MAX * u64::MAX) by (nonlinear_arith)
                requires
                    i <= usize::MAX,
            ;
            assert(usize::MAX * u64::MAX <= 0xFFFF_FFFF_FFFF_FFFF * 0xFFFF_FFFF_FFFF_FFFF)
                by (nonlinear_arith)
                requires
                    usize::MAX <= 0xFFFF_FFFF_FFFF_FFFF,
            ;
            assert(levels@.take(i + 1).drop_last() =~= levels@.take(i as int));
        }
        total = total + levels[i].size as u128;
        i = i + 1;
    }
    proof {
        assert(levels@.take(i as int) =~= levels@);
    }
    total
}

/// A market as the listing of an event names it, before any price is known.
#[derive(Debug)]
pub struct MarketListing {
    pub id: String,
    pub question: String,
    pub slug: String,
    pub outcomes: Vec<String>,
    pub clob_token_ids: Vec<String>,
}

/// The listings that can be traded as a bundle, in order: those with at
/// least two tokens.
pub open spec fn tradable(listings: Seq<MarketListing>) -> Seq<MarketListing>
    decreases listings.len(),
{
    if listings.len() == 0 {
        Seq::empty()
    } else if listings.last().clob_token_ids@.len() >= 2 {
        tradable(listings.drop_last()).push(listings.last())
    } else {
        tradable(listings.drop_last())
    }
}

/// The snapshots of the listed markets that can be traded as a bundle, in
/// the order of the listings. Each is well formed and as
/// [`Market::listing`] describes.
pub fn list_markets(listings: Vec<MarketListing>) -> (markets: Vec<Market>)
    ensures
        markets@.len() == tradable(listings@).len(),
        forall|i: int|
            0 <= i < markets@.len() ==> (#[trigger] markets@[i]).wf() && Market::listing(
                tradable(listings@)[i].id,
                tradable(listings@)[i].question,
                tradable(listings@)[i].slug,
                tradable(listings@)[i].outcomes,
                tradable(listings@)[i].clob_token_ids,
                markets@[i],
            ),
{
    let mut markets: Vec<Market> = Vec::new();
    let ghost all = listings@;
    for listing in it: listings.into_iter()
        invariant
            it.seq() == all,
            markets@.len() == tradable(all.take(it.index() as int)).len(),
            forall|i: int|
                0 <= i < markets@.len() ==> (#[trigger] markets@[i]).wf() && Market::listing(
                    tradable(all.take(it.index() as int))[i].id,
                    tradable(all.take(it.index() as int))[i].question,
                    tradable(all.take(it.index() as int))[i].slug,
                    tradable(all.take(it.index() as int))[i].outcomes,
                    tradable(all.take(it.index() as int))[i].clob_token_ids,
                    markets@[i],
                ),
    {
        proof {
            let k = it.index() as int;
            assert(all.take(k + 1).drop_last() =~= all.take(k));
            assert(all.take(k + 1).last() == listing);
        }
        match Market::listed(
            listing.id,
            listing.question,
            listing.slug,
            listing.outcomes,
            listing.clob_token_ids,
        ) {
            Some(market) => {
                markets.push(market);
            },
            None => {},
        }
    }
    proof {
        assert(all.take(all.len() as int) =~= all);
    }
    markets
}

/// The identifier of each market, in order.
pub open spec fn market_ids(markets: Seq<Market>) -> Seq<Seq<char>> {
    markets.map_values(|m: Market| m.id@)
}

/// Index of the first of `markets` whose identifier is `id`.
pub fn find_market(markets: &[Market], id: &String) -> (found: Option<usize>)
    ensures
        match found {
            Some(i) => i < markets@.len() && first_index(market_ids(markets@), id@) == Some(
                i as int,
            ),
            None => first_index(market_ids(markets@), id@) is None,
        },
{
    let mut i: usize = 0;
    while i < markets.len()
        invariant
            i <= markets.len(),
            forall|j: int| 0 <= j < i ==> market_ids(markets@)[j] != id@,
        decreases markets.len() - i,
    {
        if markets[i].id == *id {
            proof {
                lemma_first_index_is(market_ids(markets@), id@, i as int);
            }
            return Some(i);
        }
        i = i + 1;
    }
    proof {
        lemma_first_index_none(market_ids(markets@), id@);
    }
    None
}

impl Market {
    /// The shape every snapshot is meant to have: at least two outcomes, one
    /// token per outcome, and every price between zero and one.
    pub open spec fn wf(&self) -> bool {
        &&& self.outcome_prices@.len() >= 2
        &&& self.clob_token_ids@.len() == self.outcome_prices@.len()
        &&& forall|i: int|
            0 <= i < self.outcome_prices@.len() ==> #[trigger] self.outcome_prices@[i] <= SCALE
    }

    /// Checks the shape described by [`Market::wf`].
    pub fn is_well_formed(&self) -> (ok: bool)
        ensures
            ok == self.wf(),
    {
        if self.outcome_prices.len() < 2 || self.clob_token_ids.len() != self.outcome_prices.len() {
            return false;
        }
        let mut i: usize = 0;
        while i < self.outcome_prices.len()
            invariant
                i <= self.outcome_prices.len(),
                forall|j: int| 0 <= j < i ==> #[trigger] self.outcome_prices@[j] <= SCALE,
            decreases self.outcome_prices.len() - i,
        {
            if self.outcome_prices[i] > SCALE {
                return false;
            }
            i = i + 1;
        }
        true
    }

    /// The snapshot made of a freshly listed market: one price for each
    /// token, every one at one half until the books are read, the standard
    /// taker fee of two percent, live and taking orders.
    pub open spec fn listing(
        id: String,
        question: String,
        slug: String,
        outcomes: Vec<String>,
        clob_token_ids: Vec<String>,
        market: Market,
    ) -> bool {
        &&& market.id == id
        &&& market.question == question
        &&& market.slug == slug
        &&& market.outcomes == outcomes
        &&& market.outcome_prices@ =~= Seq::new(clob_token_ids@.len(), |i: int| 500_000u64)
        &&& market.clob_token_ids == clob_token_ids
        &&& market.best_bid is None
        &&& market.best_ask is None
        &&& market.maker_base_fee == 0
        &&& market.taker_base_fee == 200
        &&& market.liquidity == 0
        &&& market.volume_24hr == 0
        &&& market.active
        &&& market.accepting_orders
    }

    /// The snapshot of a freshly listed market; none where it has fewer
    /// than two tokens and so cannot be traded as a bundle. The snapshot is
    /// well formed: it has as many prices as tokens.
    pub fn listed(
        id: String,
        question: String,
        slug: String,
        outcomes: Vec<String>,
        clob_token_ids: Vec<String>,
    ) -> (market: Option<Market>)
        ensures
            clob_token_ids@.len() < 2 ==> market is None,
            clob_token_ids@.len() >= 2 ==> market is Some && market->0.wf() && Self::listing(
                id,
                question,
                slug,
                outcomes,
                clob_token_ids,
                market->0,
            ),
    {
        let count = clob_token_ids.len();
        if count < 2 {
            return None;
        }
        let mut outcome_prices: Vec<u64> = Vec::new();
        while outcome_prices.len() < count
            invariant
                outcome_prices@.len() <= count,
                forall|i: int| 0 <= i < outcome_prices@.len() ==> outcome_prices@[i] == 500_000,
            decreases count - outcome_prices@.len(),
        {
            outcome_prices.push(500_000);
        }
        Some(
            Market {
                id,
                question,
                slug,
                outcomes,
                outcome_prices,
                clob_token_ids,
                best_bid: None,
                best_ask: None,
                maker_base_fee: 0,
                taker_base_fee: 200,
                liquidity: 0,
                volume_24hr: 0,
                active: true,
                accepting_orders: true,
            },
        )
    }

    /// Takes the midpoint of `book` as the price of outcome `index`, where
    /// the book has a midpoint above zero and the market has that outcome.
    /// Says whether the price was taken.
    pub fn hydrate_price(&mut self, index: usize, book: &OrderBook) -> (updated: bool)
        ensures
            updated == (book.mid() matches Some(m) && m > 0 && index < old(
                self,
            ).outcome_prices@.len()),
            final(self).outcome_prices@ == (if updated {
                old(self).outcome_prices@.update(index as int, book.mid()->0)
            } else {
                old(self).outcome_prices@
            }),
            final(self).id == old(self).id,
            final(self).question == old(self).question,
            final(self).slug == old(self).slug,
            final(self).outcomes == old(self).outcomes,
            final(self).clob_token_ids == old(self).clob_token_ids,
            final(self).best_bid == old(self).best_bid,
            final(self).best_ask == old(self).best_ask,
            final(self).maker_base_fee == old(self).maker_base_fee,
            final(self).taker_base_fee == old(self).taker_base_fee,
            final(self).liquidity == old(self).liquidity,
            final(self).volume_24hr == old(self).volume_24hr,
            final(self).active == old(self).active,
            final(self).accepting_orders == old(self).accepting_orders,
            old(self).wf() && (updated ==> book.mid()->0 <= SCALE) ==> final(self).wf(),
    {
        match book.midpoint() {
            Some(price) => {
                if price > 0 && index < self.outcome_prices.len() {
                    self.outcome_prices[index] = price;
                    true
                } else {
                    false
                }
            },
            None => false,
        }
    }

    /// Whether the outcome prices sum to one, within the tolerance.
    pub fn is_balanced(&self) -> (b: bool)
        ensures
            b == balanced(self.outcome_prices@),
    {
        let total = total_price(&self.outcome_prices);
        let one = SCALE as u128;
        let tolerance = BALANCE_TOLERANCE as u128;
        if total >= one {
            total - one < tolerance
        } else {
            one - total < tolerance
        }
    }

    /// How far the outcome prices sum from one.
    pub fn get_spread(&self) -> (spread: u64)
        ensures
            spread as int == spread_of(self.outcome_prices@),
    {
        let total = total_price(&self.outcome_prices);
        let one = SCALE as u128;
        let gap: u128 = if total >= one {
            total - one
        } else {
            one - total
        };
        if gap > u64::MAX as u128 {
            u64::MAX
        } else {
            gap as u64
        }
    }

    /// Price of the first outcome; zero where the market has none.
    pub fn yes_price(&self) -> (price: u64)
        ensures
            price == price_at(self.outcome_prices@, 0),
    {
        if self.outcome_prices.len() > 0 {
            self.outcome_prices[0]
        } else {
            0
        }
    }

    /// Price of the second outcome; zero where the market has none.
    pub fn no_price(&self) -> (price: u64)
        ensures
            price == price_at(self.outcome_prices@, 1),
    {
        if self.outcome_prices.len() > 1 {
            self.outcome_prices[1]
        } else {
            0
        }
    }

    /// The taker fee as a ratio: basis points over ten thousand.
    pub fn taker_fee_rate(&self) -> (rate: u64)
        ensures
            rate as int * 10_000 == self.taker_base_fee as int * SCALE,
    {
        self.taker_base_fee as u64 * 100
    }
}

impl OrderBook {
    /// The levels a trade on `side` consumes: asks when buying, bids when
    /// selling.
    pub open spec fn levels_for(&self, side: Side) -> Seq<PriceLevel> {
        match side {
            Side::Buy => self.asks@,
            Side::Sell => self.bids@,
        }
    }

    /// The midpoint of the best bid and best ask, rounded down.
    pub open spec fn mid(&self) -> Option<u64> {
        if self.bids@.len() > 0 && self.asks@.len() > 0 {
            Some(((self.bids@[0].price + self.asks@[0].price) / 2) as u64)
        } else {
            None
        }
    }

    /// Price of the first bid.
    pub fn best_bid(&self) -> (price: Option<u64>)
        ensures
            price == (if self.bids@.len() > 0 {
                Some(self.bids@[0].price)
            } else {
                None
            }),
    {
        if self.bids.len() > 0 {
            Some(self.bids[0].price)
        } else {
            None
        }
    }

    /// Price of the first ask.
    pub fn best_ask(&self) -> (price: Option<u64>)
        ensures
            price == (if self.asks@.len() > 0 {
                Some(self.asks@[0].price)
            } else {
                None
            }),
    {
        if self.asks.len() > 0 {
            Some(self.asks[0].price)
        } else {
            None
        }
    }

    /// Mean of the best bid and best ask; none unless both sides are quoted.
    pub fn midpoint(&self) -> (m: Option<u64>)
        ensures
            m == self.mid(),
    {
        match (self.best_bid(), self.best_ask()) {
            (Some(bid), Some(ask)) => {
                let sum: u128 = bid as u128 + ask as u128;
                Some((sum / 2) as u64)
            },
            _ => None,
        }
    }

    /// Best ask minus best bid; none unless both sides are quoted. Negative
    /// when the book is crossed.
    pub fn spread(&self) -> (s: Option<i128>)
        ensures
            s == (if self.bids@.len() > 0 && self.asks@.len() > 0 {
                Some((self.asks@[0].price - self.bids@[0].price) as i128)
            } else {
                None
            }),
    {
        match (self.best_bid(), self.best_ask()) {
            (Some(bid), Some(ask)) => Some(ask as i128 - bid as i128),
            _ => None,
        }
    }

    /// Total size resting on the bid side.
    pub fn total_bid_liquidity(&self) -> (total: u128)
        ensures
            total as int == depth(self.bids@),
    {
        total_depth(&self.bids)
    }

    /// Total size resting on the ask side.
    pub fn total_ask_liquidity(&self) -> (total: u128)
        ensures
            total as int == depth(self.asks@),
    {
        total_depth(&self.asks)
    }

    /// Price of trading `size` on `side`, found by walking the book: asks
    /// when buying, bids when selling, each level consumed in turn up to its
    /// size. The result is the size-weighted average of the prices paid,
    /// rounded down. There is none where the side cannot fill all of `size`,
    /// nor for an empty request.
    pub fn execution_price(&self, size: u64, side: Side) -> (price: Option<u64>)
        ensures
            match vwap(self.levels_for(side), size as int) {
                Some(p) => price == Some(p as u64) && p <= u64::MAX,
                None => price is None,
            },
    {
        let levels = match side {
            Side::Buy => &self.asks,
            Side::Sell => &self.bids,
        };
        if size == 0 {
            return None;
        }
        let mut remaining: u64 = size;
        let mut total_cost: u128 = 0;
        let mut i: usize = 0;
        while i < levels.len()
            invariant
                i <= levels.len(),
                levels@ == self.levels_for(side),
                remaining <= size,
                size - remaining <= depth(levels@.take(i as int)),
                remaining > 0 ==> size - remaining == depth(levels@.take(i as int)),
                total_cost as int == walk_cost(levels@.take(i as int), size as int),
                total_cost as int <= (size - remaining) * u64::MAX,
            decreases levels.len() - i,
        {
            let level = levels[i];
            let fill: u64 = if remaining < level.size {
                remaining
            } else {
                level.size
            };
            proof {
                let prefix = levels@.take(i as int);
                let next = levels@.take(i + 1);
                assert(next.drop_last() =~= prefix);
                assert(next.take(next.len() - 1) =~= prefix);
                assert(next.last() == level);
                assert(taken_at(next, next.len() - 1, size as int) == fill as int);
                lemma_product_fits(fill, level.price);
                assert(fill * level.price <= fill * u64::MAX) by (nonlinear_arith)
                    requires
                        0 <= fill,
                        level.price <= u64::MAX,
                ;
                assert((size - remaining) * u64::MAX + fill * u64::MAX == (size - remaining + fill)
                    * u64::MAX) by (nonlinear_arith);
                assert((size - remaining + fill) * u64::MAX <= 0xFFFF_FFFF_FFFF_FFFF
                    * 0xFFFF_FFFF_FFFF_FFFF) by (nonlinear_arith)
                    requires
                        0 <= size - remaining + fill <= 0xFFFF_FFFF_FFFF_FFFF,
                        u64::MAX == 0xFFFF_FFFF_FFFF_FFFF,
                ;
            }
            total_cost = total_cost + (fill as u128) * (level.price as u128);
            remaining = remaining - fill;
            i = i + 1;
        }
        proof {
            assert(levels@.take(i as int) =~= levels@);
        }
        if remaining > 0 {
            None
        } else {
            proof {
                assert(total_cost as int / size as int <= u64::MAX) by (nonlinear_arith)
                    requires
                        0 <= total_cost as int <= size * u64::MAX,
                        size > 0,
                ;
            }
            Some((total_cost / size as u128) as u64)
        }
    }
}

} // verus!
