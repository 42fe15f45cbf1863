use polyshark::api::{collect_stats, market_page, MarketCache, MARKET_PAGE};
use polyshark::engine::EngineStatus;
use polyshark::metamask::PermissionGrant;
use polyshark::positions::{Position, PositionManager};
use polyshark::simulation::{engine_for_run, RunTally, RUN_DAILY_LIMIT, RUN_TICKS};
use polyshark::types::{Market, Side};

fn market(id: &str) -> Market {
    Market {
        id: id.to_string(),
        question: format!("question {}", id),
        slug: format!("slug-{}", id),
        outcomes: vec!["Yes".to_string(), "No".to_string()],
        outcome_prices: vec![480_000, 470_000],
        clob_token_ids: vec!["a".to_string(), "b".to_string()],
        best_bid: None,
        best_ask: None,
        maker_base_fee: 0,
        taker_base_fee: 200,
        liquidity: 0,
        volume_24hr: 0,
        active: id != "m3",
        accepting_orders: true,
    }
}

fn position(token: &str) -> Position {
    Position {
        market_id: "m".to_string(),
        token_id: token.to_string(),
        side: Side::Buy,
        size: 10_000_000,
        entry_price: 500_000,
        entry_time: 0,
        entry_spread: 30_000,
    }
}

#[test]
fn stats_without_permission() {
    let pm = PositionManager::new(10_000, 50_000, 3600);
    let stats = collect_stats(&None, &pm);
    assert!(stats.connected);
    assert!(!stats.permission_active);
    assert_eq!(stats.daily_limit, 0);
    assert_eq!(stats.spent_today, 0);
    assert_eq!(stats.total_trades, 0);
    assert_eq!(stats.win_rate, 0);
    assert_eq!(stats.total_pnl, 0);
    assert_eq!(stats.open_positions, 0);
}

#[test]
fn stats_with_history() {
    let mut pm = PositionManager::new(10_000, 50_000, 3600);
    for (token, exit) in [("a", 600_000u64), ("b", 400_000), ("c", 520_000), ("d", 510_000)] {
        pm.open_position(position(token));
        pm.close_position(token, exit, 0, 1).unwrap();
    }
    pm.open_position(position("e"));
    let grant = PermissionGrant {
        permission_id: "p".to_string(),
        token: "USDC".to_string(),
        daily_limit: 10_000_000,
        spent_today: 3_000_000,
        expires_at: 5,
        granted_at: 0,
        revoked: false,
    };
    let stats = collect_stats(&Some(grant.clone()), &pm);
    assert!(stats.permission_active);
    assert_eq!(stats.daily_limit, 10_000_000);
    assert_eq!(stats.spent_today, 3_000_000);
    assert_eq!(stats.total_trades, 4);
    assert_eq!(stats.win_rate, 75_000_000);
    assert_eq!(stats.total_pnl, 1_000_000 - 1_000_000 + 200_000 + 100_000);
    assert_eq!(stats.open_positions, 1);
    let revoked = PermissionGrant { revoked: true, ..grant };
    assert!(!collect_stats(&Some(revoked), &pm).permission_active);
}

#[test]
fn empty_cache() {
    let cache = MarketCache::default();
    let page = market_page(&cache, 1_000);
    assert!(page.markets.is_empty());
    assert_eq!(page.total_count, 0);
    assert_eq!(page.last_update_ms, 0);
    assert_eq!(page.signal_count, 0);
}

#[test]
fn page_holds_the_first_twenty_markets() {
    let markets: Vec<Market> = (0..25).map(|i| market(&format!("m{}", i))).collect();
    let cache = MarketCache { markets, last_update: Some(400), signal_count: 3 };
    let page = market_page(&cache, 1_000);
    assert_eq!(MARKET_PAGE, 20);
    assert_eq!(page.markets.len(), 20);
    assert_eq!(page.total_count, 25);
    assert_eq!(page.last_update_ms, 600);
    assert_eq!(page.signal_count, 3);
    assert_eq!(page.markets[0].id, "m0");
    assert_eq!(page.markets[19].id, "m19");
    assert_eq!(page.markets[3].question, "question m3");
    assert_eq!(page.markets[3].slug, "slug-m3");
    assert_eq!(page.markets[3].outcomes, vec!["Yes", "No"]);
    assert_eq!(page.markets[3].prices, vec![480_000, 470_000]);
    assert!(!page.markets[3].active);
    assert!(page.markets[4].active);
    assert_eq!(market_page(&cache, 100).last_update_ms, 0);
}

#[test]
fn runs_are_tallied() {
    let mut tally = RunTally::new();
    tally.record(5_000_000);
    tally.record(0);
    tally.record(7);
    assert_eq!(
        tally,
        RunTally { runs: 3, total_volume: 5_000_007, active_runs: 2, inactive_runs: 1 }
    );
}

#[test]
fn each_run_varies_the_latency() {
    let engine = engine_for_run(0, 9);
    assert_eq!(engine.execution_engine.latency_model.mean_delay_ms, 50);
    assert_eq!(engine.execution_engine.latency_model.adverse_move_std, 0);
    assert_eq!(engine.execution_engine.fee_model.taker_fee_bps, 200);
    assert_eq!(engine.detector.constraint_checker.min_spread_threshold, 10_000);
    assert_eq!(engine.detector.min_profit_threshold, 50_000);
    assert_eq!(engine.wallet.daily_limit(), RUN_DAILY_LIMIT);
    assert_eq!(engine.wallet.last_reset(), 9);
    assert_eq!(*engine.get_status(), EngineStatus::Running);
    let engine = engine_for_run(57, 0);
    assert_eq!(engine.execution_engine.latency_model.mean_delay_ms, 57);
    assert_eq!(engine.execution_engine.latency_model.adverse_move_std, 2_000);
    let engine = engine_for_run(99, 0);
    assert_eq!(engine.execution_engine.latency_model.mean_delay_ms, 99);
    assert_eq!(engine.execution_engine.latency_model.adverse_move_std, 4_000);
    assert_eq!(RUN_TICKS, 10);
}
