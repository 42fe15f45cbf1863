use polyshark::arb::ArbitrageDetector;
use polyshark::constraint::ConstraintChecker;
use polyshark::types::{ArbitrageSignal, Market, Side};

fn market_with(id: &str, yes_price: u64, no_price: u64, active: bool, accepting: bool) -> Market {
    Market {
        id: id.to_string(),
        question: "Test question?".to_string(),
        slug: "test-market".to_string(),
        outcomes: vec!["Yes".to_string(), "No".to_string()],
        outcome_prices: vec![yes_price, no_price],
        clob_token_ids: vec!["token1".to_string(), "token2".to_string()],
        best_bid: Some(yes_price.saturating_sub(10_000)),
        best_ask: Some(yes_price + 10_000),
        maker_base_fee: 0,
        taker_base_fee: 200,
        liquidity: 1_000_000_000,
        volume_24hr: 5_000_000_000,
        active,
        accepting_orders: accepting,
    }
}

fn create_test_market(yes_price: u64, no_price: u64, active: bool) -> Market {
    market_with("test_market", yes_price, no_price, active, true)
}

fn test_signal() -> ArbitrageSignal {
    ArbitrageSignal {
        market_id: "test".to_string(),
        spread: 50_000,
        edge: 50_000,
        recommended_side: Side::Buy,
        yes_price: 480_000,
        no_price: 470_000,
    }
}

#[test]
fn test_scan_finds_arbitrage_opportunity() {
    let detector = ArbitrageDetector::new(20_000, 100_000);
    let market = create_test_market(480_000, 470_000, true);
    let signals = detector.scan(&[market]);

    assert_eq!(signals.len(), 1);
    assert!(signals[0].spread.abs_diff(50_000) < 1_000);
    assert_eq!(signals[0].spread, 50_000);
    assert_eq!(signals[0].recommended_side, Side::Buy);
}

#[test]
fn test_scan_ignores_balanced_market() {
    let detector = ArbitrageDetector::new(20_000, 100_000);
    let market = create_test_market(500_000, 500_000, true);
    let signals = detector.scan(&[market]);
    assert!(signals.is_empty());
}

#[test]
fn test_scan_ignores_inactive_market() {
    let detector = ArbitrageDetector::new(20_000, 100_000);
    let market = create_test_market(480_000, 470_000, false);
    let signals = detector.scan(&[market]);
    assert!(signals.is_empty());
}

#[test]
fn test_expected_profit_calculation() {
    let detector = ArbitrageDetector::new(20_000, 100_000);
    let signal = test_signal();
    let profit = detector.expected_profit(&signal, 100_000_000, 20_000, 10_000);
    assert!((profit - 2_080_000).abs() < 10_000);
    assert_eq!(profit, 2_080_000);
}

#[test]
fn test_should_trade_above_threshold() {
    let detector = ArbitrageDetector::new(20_000, 100_000);
    let signal = test_signal();
    assert!(detector.should_trade(&signal, 100_000_000, 20_000, 10_000));
}

#[test]
fn test_should_not_trade_below_threshold() {
    let detector = ArbitrageDetector::new(20_000, 5_000_000);
    let signal = test_signal();
    assert!(!detector.should_trade(&signal, 100_000_000, 20_000, 10_000));
}

#[test]
fn test_no_violation_when_balanced() {
    let checker = ConstraintChecker::new(20_000);
    let market = create_test_market(500_000, 500_000, true);
    assert!(checker.check_violation(&market).is_none());
}

#[test]
fn test_no_violation_when_within_threshold() {
    let checker = ConstraintChecker::new(20_000);
    let market = create_test_market(490_000, 500_000, true);
    assert!(checker.check_violation(&market).is_none());
}

#[test]
fn test_violation_detected_underpriced() {
    let checker = ConstraintChecker::new(20_000);
    let market = create_test_market(480_000, 470_000, true);
    let result = checker.check_violation(&market);
    assert!(result.is_some());
    let signal = result.unwrap();
    assert!(signal.spread.abs_diff(50_000) < 1_000);
    assert_eq!(signal.recommended_side, Side::Buy);
}

#[test]
fn test_violation_detected_overpriced() {
    let checker = ConstraintChecker::new(20_000);
    let market = create_test_market(550_000, 500_000, true);
    let result = checker.check_violation(&market);
    assert!(result.is_some());
    let signal = result.unwrap();
    assert!(signal.spread.abs_diff(50_000) < 1_000);
    assert_eq!(signal.recommended_side, Side::Sell);
}

#[test]
fn test_spread_at_threshold_boundary() {
    let checker = ConstraintChecker::new(20_000);
    let market = create_test_market(495_000, 495_000, true);
    assert!(checker.check_violation(&market).is_none());
}

#[test]
fn spread_equal_to_threshold_gives_no_signal() {
    let checker = ConstraintChecker::new(20_000);
    assert!(checker.check_violation(&create_test_market(490_000, 490_000, true)).is_none());
    assert!(checker.check_violation(&create_test_market(510_000, 510_000, true)).is_none());
    assert!(checker.check_violation(&create_test_market(490_000, 489_999, true)).is_some());
    assert!(checker.check_violation(&create_test_market(510_000, 510_001, true)).is_some());
}

#[test]
fn exact_sum_gives_no_signal_even_at_zero_threshold() {
    let detector = ArbitrageDetector::new(0, 0);
    assert!(detector.scan(&[create_test_market(300_000, 700_000, true)]).is_empty());
    assert_eq!(detector.scan(&[create_test_market(300_000, 700_001, true)]).len(), 1);
}

#[test]
fn signal_carries_the_market_and_its_prices() {
    let checker = ConstraintChecker::new(20_000);
    let signal = checker.check_violation(&create_test_market(480_000, 470_000, true)).unwrap();
    assert_eq!(signal.market_id, "test_market");
    assert_eq!(signal.spread, 50_000);
    assert_eq!(signal.edge, 50_000);
    assert_eq!(signal.yes_price, 480_000);
    assert_eq!(signal.no_price, 470_000);
}

#[test]
fn scan_keeps_the_order_of_the_markets() {
    let detector = ArbitrageDetector::new(20_000, 100_000);
    let markets = vec![
        market_with("a", 480_000, 470_000, true, true),
        market_with("b", 500_000, 500_000, true, true),
        market_with("c", 600_000, 500_000, true, true),
        market_with("d", 400_000, 400_000, true, false),
        market_with("e", 400_000, 400_000, false, true),
        market_with("f", 300_000, 300_000, true, true),
    ];
    let signals = detector.scan(&markets);
    let ids: Vec<&str> = signals.iter().map(|s| s.market_id.as_str()).collect();
    assert_eq!(ids, vec!["a", "c", "f"]);
    assert_eq!(signals[0].recommended_side, Side::Buy);
    assert_eq!(signals[1].recommended_side, Side::Sell);
    assert_eq!(signals[1].spread, 100_000);
    assert_eq!(signals[2].spread, 400_000);
}

#[test]
fn scan_of_nothing_is_empty() {
    let detector = ArbitrageDetector::new(20_000, 100_000);
    assert!(detector.scan(&[]).is_empty());
}

#[test]
fn markets_with_three_outcomes_are_summed_over_all() {
    let checker = ConstraintChecker::new(20_000);
    let mut market = create_test_market(300_000, 300_000, true);
    market.outcome_prices.push(300_000);
    let signal = checker.check_violation(&market).unwrap();
    assert_eq!(signal.spread, 100_000);
    assert_eq!(signal.recommended_side, Side::Buy);
}

#[test]
fn expected_profit_can_be_negative() {
    let detector = ArbitrageDetector::new(20_000, 100_000);
    let mut signal = test_signal();
    signal.edge = 10_000;
    // 1.00 gross, 1.92 fees, 1.00 slippage
    let profit = detector.expected_profit(&signal, 100_000_000, 20_000, 10_000);
    assert_eq!(profit, -1_920_000);
    assert!(!detector.should_trade(&signal, 100_000_000, 20_000, 10_000));
}

#[test]
fn should_trade_is_strict_at_the_threshold() {
    let signal = test_signal();
    let at = ArbitrageDetector::new(20_000, 2_080_000);
    assert!(!at.should_trade(&signal, 100_000_000, 20_000, 10_000));
    let below = ArbitrageDetector::new(20_000, 2_079_999);
    assert!(below.should_trade(&signal, 100_000_000, 20_000, 10_000));
}

#[test]
fn expected_profit_survives_extreme_values() {
    let detector = ArbitrageDetector::new(0, 0);
    let mut signal = test_signal();
    signal.edge = u64::MAX;
    signal.yes_price = u64::MAX;
    let profit = detector.expected_profit(&signal, u64::MAX, u64::MAX, u64::MAX);
    assert_eq!(profit, -2 * (u64::MAX as i128));
}
