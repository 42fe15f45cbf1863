use polyshark::arb::ArbitrageDetector;
use polyshark::config::SafetyConfig;
use polyshark::engine::{
    plan_orders, EngineStatus, OrderRequest, SafeModeReason, SafetyMonitor, TradingEngine, LEG_SIZE,
};
use polyshark::execution::ExecutionEngine;
use polyshark::fees::FeeModel;
use polyshark::latency::LatencyModel;
use polyshark::types::{ArbitrageSignal, Market, OrderBook, PriceLevel, Side};
use polyshark::wallet::Wallet;

fn engine() -> TradingEngine {
    TradingEngine::new(
        Wallet::new(10_000_000, 0),
        ArbitrageDetector::new(20_000, 100_000),
        ExecutionEngine::new(
            FeeModel { maker_fee_bps: 0, taker_fee_bps: 200 },
            LatencyModel::new(50, 1_000),
        ),
    )
}

fn limits(max_failures: u32) -> SafetyConfig {
    SafetyConfig {
        max_data_delay_ms: 5000,
        max_consecutive_failures: max_failures,
        safe_mode_cooldown_secs: 300,
        assume_zero_on_perm_error: true,
    }
}

fn market(id: &str, tokens: &[&str]) -> Market {
    Market {
        id: id.to_string(),
        question: String::new(),
        slug: String::new(),
        outcomes: vec![],
        outcome_prices: vec![480_000, 470_000],
        clob_token_ids: tokens.iter().map(|t| t.to_string()).collect(),
        best_bid: None,
        best_ask: None,
        maker_base_fee: 0,
        taker_base_fee: 200,
        liquidity: 0,
        volume_24hr: 0,
        active: true,
        accepting_orders: true,
    }
}

fn signal(market_id: &str, side: Side) -> ArbitrageSignal {
    ArbitrageSignal {
        market_id: market_id.to_string(),
        spread: 50_000,
        edge: 50_000,
        recommended_side: side,
        yes_price: 480_000,
        no_price: 470_000,
    }
}

#[test]
fn new_engine_is_running() {
    let engine = engine();
    assert_eq!(*engine.get_status(), EngineStatus::Running);
    assert_eq!(engine.safety.consecutive_failures(), 0);
}

#[test]
fn three_failures_enter_safe_mode_and_the_next_cycle_is_skipped() {
    let mut engine = engine().with_safety_config(limits(3));
    for now in [1_000u64, 2_000, 3_000] {
        assert!(engine.check_safety_conditions(now));
        engine.handle_failure();
        assert_eq!(*engine.get_status(), EngineStatus::Running);
    }
    assert_eq!(engine.safety.consecutive_failures(), 3);

    assert!(!engine.check_safety_conditions(4_000));
    assert_eq!(
        *engine.get_status(),
        EngineStatus::SafeMode {
            reason: SafeModeReason::ConsecutiveFailures { count: 3 },
            until: 304_000,
        }
    );

    // A fourth cycle before the cooldown is over does nothing.
    assert!(!engine.check_safety_conditions(5_000));
    assert!(!engine.check_safety_conditions(303_999));
    assert_eq!(
        *engine.get_status(),
        EngineStatus::SafeMode {
            reason: SafeModeReason::ConsecutiveFailures { count: 3 },
            until: 304_000,
        }
    );
    assert_eq!(engine.safety.consecutive_failures(), 3);
    assert_eq!(engine.wallet.spent_today(), 0);
    assert!(engine.wallet.positions().is_empty());
}

#[test]
fn safe_mode_ends_when_the_cooldown_is_over() {
    let mut engine = engine().with_safety_config(limits(2));
    engine.handle_failure();
    engine.handle_failure();
    assert!(!engine.check_safety_conditions(0));
    assert!(engine.check_safety_conditions(300_000));
    assert_eq!(*engine.get_status(), EngineStatus::Running);
    assert_eq!(engine.safety.consecutive_failures(), 0);
}

#[test]
fn two_failures_are_not_enough() {
    let mut engine = engine();
    engine.handle_failure();
    engine.handle_failure();
    assert!(engine.check_safety_conditions(10));
    assert_eq!(*engine.get_status(), EngineStatus::Running);
}

#[test]
fn success_clears_the_failure_run() {
    let mut engine = engine();
    engine.handle_failure();
    engine.handle_failure();
    engine.handle_success(100);
    assert_eq!(engine.safety.consecutive_failures(), 0);
    engine.handle_failure();
    assert!(engine.check_safety_conditions(200));
}

#[test]
fn stale_data_suspends_trading() {
    let mut engine = engine();
    engine.handle_success(1_000);
    assert!(engine.check_safety_conditions(6_000));
    assert!(!engine.check_safety_conditions(6_001));
    assert_eq!(*engine.get_status(), EngineStatus::DataDelaySuspended { delay_ms: 5_001 });
    assert!(!engine.check_safety_conditions(9_000));
    assert_eq!(*engine.get_status(), EngineStatus::DataDelaySuspended { delay_ms: 8_000 });
}

#[test]
fn staleness_is_checked_before_the_failure_run() {
    let mut engine = engine();
    engine.handle_success(0);
    engine.handle_failure();
    engine.handle_failure();
    engine.handle_failure();
    assert!(!engine.check_safety_conditions(10_000));
    assert_eq!(*engine.get_status(), EngineStatus::DataDelaySuspended { delay_ms: 10_000 });
}

#[test]
fn no_fetch_yet_is_not_stale() {
    let mut engine = engine();
    assert!(engine.check_safety_conditions(u64::MAX));
}

#[test]
fn safe_mode_end_time_is_pinned() {
    let mut engine = engine().with_safety_config(limits(0));
    assert!(!engine.check_safety_conditions(u64::MAX - 5));
    assert_eq!(
        *engine.get_status(),
        EngineStatus::SafeMode {
            reason: SafeModeReason::ConsecutiveFailures { count: 0 },
            until: u64::MAX,
        }
    );
}

#[test]
fn revoked_permission_stops_the_engine_for_good() {
    let mut engine = engine();
    assert!(engine.observe_permission(10));
    assert_eq!(*engine.get_status(), EngineStatus::Running);
    engine.wallet.revoke();
    assert!(!engine.observe_permission(11));
    assert_eq!(*engine.get_status(), EngineStatus::Stopped);
    assert!(!engine.check_safety_conditions(12));
    engine.handle_success(13);
    assert!(!engine.check_safety_conditions(14));
    assert!(!engine.observe_permission(15));
    assert_eq!(*engine.get_status(), EngineStatus::Stopped);
}

#[test]
fn expired_permission_stops_the_engine() {
    let mut engine = engine();
    engine.wallet.set_expiry(Some(100));
    assert!(engine.observe_permission(99));
    assert!(!engine.observe_permission(100));
    assert_eq!(*engine.get_status(), EngineStatus::Stopped);
}

#[test]
fn monitor_on_its_own() {
    let mut monitor = SafetyMonitor::new(limits(1));
    assert!(monitor.check(0));
    monitor.record_failure();
    assert!(!monitor.check(0));
    monitor.stop();
    assert_eq!(*monitor.status(), EngineStatus::Stopped);
    assert!(!monitor.check(u64::MAX));
}

#[test]
fn orders_are_planned_for_buy_signals_only() {
    let markets = vec![market("m1", &["a", "b"]), market("m2", &["c", "d", "e"]), market("m1", &["x", "y"])];
    let signals = vec![
        signal("m2", Side::Buy),
        signal("m1", Side::Sell),
        signal("missing", Side::Buy),
        signal("m1", Side::Buy),
    ];
    let orders = plan_orders(&signals, &markets);
    let tokens: Vec<&str> = orders.iter().map(|o| o.token_id.as_str()).collect();
    assert_eq!(tokens, vec!["c", "d", "e", "a", "b"]);
    assert!(orders.iter().all(|o| o.size == LEG_SIZE && o.side == Side::Buy));
    assert_eq!(LEG_SIZE, 5_000_000);
    assert!(plan_orders(&vec![], &markets).is_empty());
}

#[test]
fn a_cycle_scans_and_plans() {
    let mut engine = engine();
    engine.handle_failure();
    let mut balanced = market("m0", &["p", "q"]);
    balanced.outcome_prices = vec![500_000, 500_000];
    let mut idle = market("m2", &["r", "s"]);
    idle.active = false;
    let markets = vec![balanced, market("m1", &["a", "b"]), idle];
    let orders = engine.orders_for_cycle(&markets, 1_000);
    let tokens: Vec<&str> = orders.iter().map(|o| o.token_id.as_str()).collect();
    assert_eq!(tokens, vec!["a", "b"]);
    assert_eq!(engine.safety.consecutive_failures(), 0);
    assert!(engine.check_safety_conditions(6_000));
    assert!(!engine.check_safety_conditions(6_001));
}

#[test]
fn an_order_is_filled_against_the_wallet() {
    let mut engine = engine();
    let book = OrderBook {
        token_id: "a".to_string(),
        bids: vec![],
        asks: vec![PriceLevel { price: 500_000, size: 100_000_000 }],
        timestamp: 0,
    };
    let order = OrderRequest { token_id: "a".to_string(), size: LEG_SIZE, side: Side::Buy };
    let result = engine.fill(&order, &book, 0, 50).unwrap();
    assert_eq!(result.filled_size, 5_000_000);
    assert_eq!(result.execution_price, 500_000);
    assert_eq!(result.fee_paid, 50_000);
    assert_eq!(result.total_cost, 2_550_000);
    assert_eq!(engine.wallet.spent_today(), 2_550_000);
    assert_eq!(engine.wallet.positions()[0].token_id, "a");
    let big = OrderRequest { token_id: "a".to_string(), size: 20_000_000, side: Side::Buy };
    assert!(engine.fill(&big, &book, 0, 51).is_none());
    assert_eq!(engine.wallet.spent_today(), 2_550_000);
}
