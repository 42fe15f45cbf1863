use polyshark::config::{Config, SafetyConfig, StrategyConfig};
use polyshark::metamask::StrategyMode;
use polyshark::strategy::{
    get_min_edge_for_allowance, get_strategy_mode_name, is_actionable, strategy_mode,
};
use polyshark::types::{ArbitrageSignal, Side};

#[test]
fn test_default_config() {
    let config = Config::default_config();
    assert_eq!(config.permission.daily_limit_usdc, 10_000_000);
    assert_eq!(config.trading.min_spread_threshold, 20_000);
}

#[test]
fn default_config_in_full() {
    let config = Config::default_config().clone();
    assert_eq!(config.permission.duration_days, 30);
    assert_eq!(config.permission.token, "USDC");
    assert_eq!(config.trading.min_profit_threshold, 100_000);
    assert_eq!(config.trading.trade_size, 5_000_000);
    assert_eq!(config.trading.max_position_value, 50_000_000);
    assert_eq!(config.timing.poll_interval_secs, 5);
    assert_eq!(config.timing.position_timeout_secs, 3600);
    assert_eq!(config.timing.latency_base_ms, 50);
    assert_eq!(config.timing.adverse_selection_std, 1_000);
    assert_eq!(config.api.gamma_url, "https://gamma-api.polymarket.com/events");
    assert_eq!(config.api.clob_url, "https://clob.polymarket.com");
    assert_eq!(config.api.websocket_url, "wss://ws-subscriptions-clob.polymarket.com/ws");
    assert_eq!(config.api.market_limit, 20);
    assert_eq!(config.logging.level, "info");
    assert!(config.logging.colorize);
    assert_eq!(config.strategy, StrategyConfig::default());
    assert_eq!(config.safety, SafetyConfig::default());
}

#[test]
fn default_limits() {
    let safety = SafetyConfig::default();
    assert_eq!(safety.max_data_delay_ms, 5000);
    assert_eq!(safety.max_consecutive_failures, 3);
    assert_eq!(safety.safe_mode_cooldown_secs, 300);
    assert!(safety.assume_zero_on_perm_error);
    let strategy = StrategyConfig::default();
    assert_eq!(strategy.conservative_threshold, 300_000);
    assert_eq!(strategy.aggressive_threshold, 700_000);
    assert_eq!(strategy.conservative_min_edge, 50_000);
    assert_eq!(strategy.normal_min_edge, 20_000);
    assert_eq!(strategy.aggressive_min_edge, 10_000);
}

#[test]
fn minimum_edge_follows_the_allowance_left() {
    let strategy = StrategyConfig::default();
    assert_eq!(get_min_edge_for_allowance(2_000_000, 10_000_000, &strategy), 50_000);
    assert_eq!(get_min_edge_for_allowance(2_999_999, 10_000_000, &strategy), 50_000);
    assert_eq!(get_min_edge_for_allowance(3_000_000, 10_000_000, &strategy), 20_000);
    assert_eq!(get_min_edge_for_allowance(7_000_000, 10_000_000, &strategy), 20_000);
    assert_eq!(get_min_edge_for_allowance(7_000_001, 10_000_000, &strategy), 10_000);
    assert_eq!(get_min_edge_for_allowance(10_000_000, 10_000_000, &strategy), 10_000);
    assert_eq!(get_min_edge_for_allowance(5, 0, &strategy), 50_000);
    assert_eq!(get_min_edge_for_allowance(u64::MAX, u64::MAX, &strategy), 10_000);
}

#[test]
fn mode_names() {
    let strategy = StrategyConfig::default();
    assert_eq!(get_strategy_mode_name(1, 10, &strategy), "Conservative");
    assert_eq!(get_strategy_mode_name(5, 10, &strategy), "Normal");
    assert_eq!(get_strategy_mode_name(9, 10, &strategy), "Aggressive");
    assert_eq!(get_strategy_mode_name(9, 0, &strategy), "Conservative");
    assert_eq!(strategy_mode(9, 10, &strategy), StrategyMode::Aggressive);
}

#[test]
fn signals_worth_acting_on() {
    let signal = ArbitrageSignal {
        market_id: "m".to_string(),
        spread: 20_000,
        edge: 20_000,
        recommended_side: Side::Buy,
        yes_price: 490_000,
        no_price: 490_000,
    };
    assert!(is_actionable(&signal, 20_000, 10_000_000, 5_000_000));
    assert!(!is_actionable(&signal, 20_001, 10_000_000, 5_000_000));
    assert!(!is_actionable(&signal, 20_000, 9_999_999, 5_000_000));
    assert!(!is_actionable(&signal, 0, u64::MAX, u64::MAX));
    let sell = ArbitrageSignal { recommended_side: Side::Sell, ..signal.clone() };
    assert!(!is_actionable(&sell, 20_000, 10_000_000, 5_000_000));
}
