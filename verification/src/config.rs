//! Settings of the agent and their defaults. Amounts and ratios are in
//! millionths.

use vstd::prelude::*;

verus! {

/// Root of the configuration.
#[derive(Debug)]
pub struct Config {
    pub permission: PermissionConfig,
    pub trading: TradingConfig,
    pub timing: TimingConfig,
    pub api: ApiConfig,
    pub logging: LoggingConfig,
    pub strategy: StrategyConfig,
    pub safety: SafetyConfig,
}

#[derive(Debug)]
pub struct PermissionConfig {
    pub daily_limit_usdc: u64,
    pub duration_days: u32,
    pub token: String,
}

#[derive(Debug, Clone, Copy, PartialEq, Eq, Structural)]
pub struct TradingConfig {
    pub min_spread_threshold: u64,
    pub min_profit_threshold: i64,
    pub trade_size: u64,
    pub max_position_value: u64,
}

#[derive(Debug, Clone, Copy, PartialEq, Eq, Structural)]
pub struct TimingConfig {
    pub poll_interval_secs: u64,
    pub position_timeout_secs: u64,
    pub latency_base_ms: u64,
    pub adverse_selection_std: u64,
}

#[derive(Debug)]
pub struct ApiConfig {
    pub gamma_url: String,
    pub clob_url: String,
    pub websocket_url: String,
    pub market_limit: u32,
}

#[derive(Debug)]
pub struct LoggingConfig {
    pub level: String,
    pub colorize: bool,
}

/// How the minimum edge adapts to the allowance that is left.
#[derive(Debug, Clone, Copy, PartialEq, Eq, Structural)]
pub struct StrategyConfig {
    /// Below this share of the allowance the agent trades conservatively.
    pub conservative_threshold: u64,
    /// Above this share of the allowance the agent trades aggressively.
    pub aggressive_threshold: u64,
    /// Minimum edge when conservative.
    pub conservative_min_edge: u64,
    /// Minimum edge otherwise.
    pub normal_min_edge: u64,
    /// Minimum edge when aggressive.
    pub aggressive_min_edge: u64,
}

/// Limits that guard the trading cycle.
#[derive(Debug, Clone, Copy, PartialEq, Eq, Structural)]
pub struct SafetyConfig {
    /// Age of the market data, in milliseconds, beyond which trading is
    /// suspended.
    pub max_data_delay_ms: u64,
    /// Number of consecutive data failures at which safe mode is entered.
    pub max_consecutive_failures: u32,
    /// Length of safe mode, in seconds.
    pub safe_mode_cooldown_secs: u64,
    /// Treat the allowance as zero when it cannot be queried.
    pub assume_zero_on_perm_error: bool,
}

impl Clone for PermissionConfig {
    fn clone(&self) -> (r: Self)
        ensures
            r == *self,
    {
        PermissionConfig {
            daily_limit_usdc: self.daily_limit_usdc,
            duration_days: self.duration_days,
            token: self.token.clone(),
        }
    }
}

impl Clone for ApiConfig {
    fn clone(&self) -> (r: Self)
        ensures
            r == *self,
    {
        ApiConfig {
            gamma_url: self.gamma_url.clone(),
            clob_url: self.clob_url.clone(),
            websocket_url: self.websocket_url.clone(),
            market_limit: self.market_limit,
        }
    }
}

impl Clone for LoggingConfig {
    fn clone(&self) -> (r: Self)
        ensures
            r == *self,
    {
        LoggingConfig { level: self.level.clone(), colorize: self.colorize }
    }
}

impl Clone for Config {
    fn clone(&self) -> (r: Self)
        ensures
            r == *self,
    {
        Config {
            permission: self.permission.clone(),
            trading: self.trading,
            timing: self.timing,
            api: self.api.clone(),
            logging: self.logging.clone(),
            strategy: self.strategy,
            safety: self.safety,
        }
    }
}

impl Default for StrategyConfig {
    fn default() -> (config: Self)
        ensures
            config == StrategyConfig::standard(),
    {
        StrategyConfig {
            conservative_threshold: 300_000,
            aggressive_threshold: 700_000,
            conservative_min_edge: 50_000,
            normal_min_edge: 20_000,
            aggressive_min_edge: 10_000,
        }
    }
}

impl SafetyConfig {
    /// The limits used where none are supplied: data no older than five
    /// seconds, safe mode after three failures in a row, for five minutes.
    pub open spec fn standard() -> SafetyConfig {
        SafetyConfig {
            max_data_delay_ms: 5000,
            max_consecutive_failures: 3,
            safe_mode_cooldown_secs: 300,
            assume_zero_on_perm_error: true,
        }
    }
}

impl StrategyConfig {
    /// The thresholds used where none are supplied: conservative below three
    /// tenths of the allowance, aggressive above seven tenths, with minimum
    /// edges of five, two and one percent.
    pub open spec fn standard() -> StrategyConfig {
        StrategyConfig {
            conservative_threshold: 300_000,
            aggressive_threshold: 700_000,
            conservative_min_edge: 50_000,
            normal_min_edge: 20_000,
            aggressive_min_edge: 10_000,
        }
    }
}

impl Default for SafetyConfig {
    fn default() -> (config: Self)
        ensures
            config == SafetyConfig::standard(),
    {
        SafetyConfig {
            max_data_delay_ms: 5000,
            max_consecutive_failures: 3,
            safe_mode_cooldown_secs: 300,
            assume_zero_on_perm_error: true,
        }
    }
}

impl Config {
    /// The configuration used where none is supplied.
    pub fn default_config() -> (config: Self)
        ensures
            config.permission.daily_limit_usdc == 10_000_000,
            config.permission.duration_days == 30,
            config.permission.token@ == "USDC"@,
            config.trading == (TradingConfig {
                min_spread_threshold: 20_000,
                min_profit_threshold: 100_000,
                trade_size: 5_000_000,
                max_position_value: 50_000_000,
            }),
            config.timing == (TimingConfig {
                poll_interval_secs: 5,
                position_timeout_secs: 3600,
                latency_base_ms: 50,
                adverse_selection_std: 1_000,
            }),
            config.api.gamma_url@ == "https://gamma-api.polymarket.com/events"@,
            config.api.clob_url@ == "https://clob.polymarket.com"@,
            config.api.websocket_url@ == "wss://ws-subscriptions-clob.polymarket.com/ws"@,
            config.api.market_limit == 20,
            config.logging.level@ == "info"@,
            config.logging.colorize,
            config.strategy == StrategyConfig::standard(),
            config.safety == SafetyConfig::standard(),
    {
        Config {
            permission: PermissionConfig {
                daily_limit_usdc: 10_000_000,
                duration_days: 30,
                token: "USDC".to_owned(),
            },
            trading: TradingConfig {
                min_spread_threshold: 20_000,
                min_profit_threshold: 100_000,
                trade_size: 5_000_000,
                max_position_value: 50_000_000,
            },
            timing: TimingConfig {
                poll_interval_secs: 5,
                position_timeout_secs: 3600,
                latency_base_ms: 50,
                adverse_selection_std: 1_000,
            },
            api: ApiConfig {
                gamma_url: "https://gamma-api.polymarket.com/events".to_owned(),
                clob_url: "https://clob.polymarket.com".to_owned(),
                websocket_url: "wss://ws-subscriptions-clob.polymarket.com/ws".to_owned(),
                market_limit: 20,
            },
            logging: LoggingConfig { level: "info".to_owned(), colorize: true },
            strategy: StrategyConfig::default(),
            safety: SafetyConfig::default(),
        }
    }
}

} // verus!
