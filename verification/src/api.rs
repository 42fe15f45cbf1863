//! What the agent reports to its dashboard: trade statistics and the
//! markets it last saw.

use crate::engine::age;
use crate::metamask::PermissionGrant;
use crate::positions::{pnl_total, win_ratio, PositionManager};
use crate::types::Market;
use vstd::prelude::*;

verus! {

/// Number of markets reported at a time.
pub const MARKET_PAGE: usize = 20;

/// The markets of the last cycle.
#[derive(Debug)]
pub struct MarketCache {
    pub markets: Vec<Market>,
    /// When the markets were stored, in milliseconds.
    pub last_update: Option<u64>,
    pub signal_count: usize,
}

impl Default for MarketCache {
    fn default() -> (cache: Self)
        ensures
            cache.markets@.len() == 0,
            cache.last_update is None,
            cache.signal_count == 0,
    {
        Self { markets: Vec::new(), last_update: None, signal_count: 0 }
    }
}

/// Live statistics.
#[derive(Debug, Clone, Copy, PartialEq, Eq, Structural)]
pub struct StatsResponse {
    pub connected: bool,
    pub permission_active: bool,
    pub daily_limit: u64,
    pub spent_today: u64,
    pub total_trades: usize,
    /// Share of winning trades, in percent.
    pub win_rate: u64,
    pub total_pnl: i128,
    pub open_positions: usize,
}

/// What is reported of a market.
#[derive(Debug)]
pub struct MarketInfo {
    pub id: String,
    pub question: String,
    pub slug: String,
    pub outcomes: Vec<String>,
    pub prices: Vec<u64>,
    pub active: bool,
}

/// The first markets of the cache, with how many there are in all.
#[derive(Debug)]
pub struct MarketsResponse {
    pub markets: Vec<MarketInfo>,
    pub total_count: usize,
    /// Age of the cache, in milliseconds; zero while it is empty.
    pub last_update_ms: u64,
    pub signal_count: usize,
}

/// Whether `info` reports `market`.
pub open spec fn reports(info: MarketInfo, market: Market) -> bool {
    &&& info.id == market.id
    &&& info.question == market.question
    &&& info.slug == market.slug
    &&& info.outcomes@ == market.outcomes@
    &&& info.prices@ == market.outcome_prices@
    &&& info.active == market.active
}

/// The statistics of `positions` under `permission`. Without a permission
/// nothing is active and the allowance reads zero.
pub fn collect_stats(
    permission: &Option<PermissionGrant>,
    positions: &PositionManager,
) -> (stats: StatsResponse)
    ensures
        stats.connected,
        stats.permission_active == (permission matches Some(grant) && !grant.revoked),
        stats.daily_limit == (match permission {
            Some(grant) => grant.daily_limit,
            None => 0,
        }),
        stats.spent_today == (match permission {
            Some(grant) => grant.spent_today,
            None => 0,
        }),
        stats.total_trades == positions@.history.len(),
        stats.win_rate == win_ratio(positions@.history) * 100,
        stats.total_pnl == pnl_total(positions@.history),
        stats.open_positions == positions@.positions.len(),
{
    let (permission_active, daily_limit, spent_today) = match permission {
        Some(grant) => (!grant.revoked, grant.daily_limit, grant.spent_today),
        None => (false, 0, 0),
    };
    StatsResponse {
        connected: true,
        permission_active,
        daily_limit,
        spent_today,
        total_trades: positions.trade_count(),
        win_rate: positions.win_rate() * 100,
        total_pnl: positions.total_pnl(),
        open_positions: positions.get_positions().len(),
    }
}

/// The first page of the cached markets, as read at `now` in milliseconds.
pub fn market_page(cache: &MarketCache, now: u64) -> (page: MarketsResponse)
    ensures
        page.total_count == cache.markets@.len(),
        page.signal_count == cache.signal_count,
        page.last_update_ms == (match cache.last_update {
            Some(then) => age(then, now),
            None => 0,
        }),
        page.markets@.len() == (if cache.markets@.len() < MARKET_PAGE {
            cache.markets@.len()
        } else {
            MARKET_PAGE as nat
        }),
        forall|i: int|
            0 <= i < page.markets@.len() ==> reports(
                #[trigger] page.markets@[i],
                cache.markets@[i],
            ),
{
    let last_update_ms = match cache.last_update {
        Some(then) => if now >= then {
            now - then
        } else {
            0
        },
        None => 0,
    };
    let mut markets: Vec<MarketInfo> = Vec::new();
    let mut i: usize = 0;
    while i < cache.markets.len() && i < MARKET_PAGE
        invariant
            i <= cache.markets@.len(),
            i <= MARKET_PAGE,
            markets@.len() == i,
            forall|j: int| 0 <= j < i ==> reports(#[trigger] markets@[j], cache.markets@[j]),
        decreases cache.markets@.len() - i,
    {
        let m = &cache.markets[i];
        markets.push(
            MarketInfo {
                id: m.id.clone(),
                question: m.question.clone(),
                slug: m.slug.clone(),
                outcomes: m.outcomes.clone(),
                prices: m.outcome_prices.clone(),
                active: m.active,
            },
        );
        i = i + 1;
    }
    MarketsResponse {
        markets,
        total_count: cache.markets.len(),
        last_update_ms,
        signal_count: cache.signal_count,
    }
}

} // verus!
