use polymarket_arbitrage_bot::config::{
    default_assets, default_bankroll_usdc, default_btc_correlation_min_straddle_cost, default_btc_correlation_threshold,
    default_clear_remaining_mins, default_clear_threshold, default_danger_price, default_danger_time_passed,
    default_fill_probability_btc, default_fill_probability_eth, default_fill_probability_sol, default_fill_probability_xrp,
    default_kelly_fraction_k, default_loser_stop_loss_price, default_market_closure_check_interval_seconds,
    default_one_side_buy_risk_management, default_risk_aversion_gamma, default_sell_opposite_above,
    default_sell_opposite_time_remaining, default_stable_max, default_stable_min, default_straddle_hard_cap, default_true,
    Config, SignalConfig,
};
use polymarket_arbitrage_bot::signals::{evaluate_place_signal, is_danger_signal, MarketSignal};

fn enabled_signal() -> SignalConfig {
    SignalConfig {
        enabled: true,
        stable_min: default_stable_min(),
        stable_max: default_stable_max(),
        clear_threshold: 900_000,
        clear_remaining_mins: 3,
        danger_price: default_danger_price(),
        danger_time_passed: default_danger_time_passed(),
        one_side_buy_risk_management: default_one_side_buy_risk_management(),
        mid_market_enabled: false,
        btc_correlation_enabled: false,
        btc_correlation_threshold: default_btc_correlation_threshold(),
        btc_correlation_min_straddle_cost: default_btc_correlation_min_straddle_cost(),
    }
}

#[test]
fn serde_defaults() {
    assert!(default_true());
    assert_eq!(default_stable_min(), 200_000);
    assert_eq!(default_stable_max(), 800_000);
    assert_eq!(default_clear_threshold(), 990_000);
    assert_eq!(default_clear_remaining_mins(), 15);
    assert_eq!(default_danger_price(), 280_000);
    assert_eq!(default_danger_time_passed(), 15);
    assert_eq!(default_one_side_buy_risk_management(), "price");
    assert_eq!(default_sell_opposite_above(), 700_000);
    assert_eq!(default_sell_opposite_time_remaining(), 10);
    assert_eq!(default_market_closure_check_interval_seconds(), 120);
    assert_eq!(default_risk_aversion_gamma(), 1_000);
    assert_eq!(default_kelly_fraction_k(), 250_000);
    assert_eq!(default_bankroll_usdc(), 500_000_000);
    assert_eq!(default_assets(), vec!["BTC".to_string(), "ETH".to_string(), "SOL".to_string(), "XRP".to_string()]);
    assert_eq!(default_straddle_hard_cap(), 940_000);
    assert_eq!(default_loser_stop_loss_price(), 250_000);
    assert_eq!(default_fill_probability_btc(), 880_000);
    assert_eq!(default_fill_probability_eth(), 850_000);
    assert_eq!(default_fill_probability_sol(), 780_000);
    assert_eq!(default_fill_probability_xrp(), 750_000);
}

#[test]
fn default_config_values() {
    let c = Config::default();
    assert_eq!(c.polymarket.gamma_api_url, "https://gamma-api.polymarket.com");
    assert_eq!(c.polymarket.clob_api_url, "https://clob.polymarket.com");
    assert!(c.polymarket.api_key.is_none());
    assert_eq!(c.strategy.price_limit, 450_000);
    assert_eq!(c.strategy.shares, 5_000_000);
    assert_eq!(c.strategy.place_order_before_mins, 3);
    assert_eq!(c.strategy.check_interval_ms, 2000);
    assert!(!c.strategy.signal.enabled);
    assert_eq!(c.strategy.signal.stable_min, 0);
    assert_eq!(c.strategy.signal.one_side_buy_risk_management, "");
    assert_eq!(c.strategy.sell_opposite_above, 700_000);
    assert_eq!(c.strategy.assets.len(), 4);
}

#[test]
fn default_signal_is_all_zero() {
    let s = SignalConfig::default();
    assert!(!s.enabled);
    assert_eq!(s.danger_price, 0);
    assert_eq!(s.clear_remaining_mins, 0);
    assert!(s.one_side_buy_risk_management.is_empty());
}

#[test]
fn commitment_of_default_config() {
    let c = Config::default();
    assert_eq!(c.strategy.commitment(), (2_250_000, 4_500_000, 9_000_000));
}

#[test]
fn signal_disabled_is_good() {
    let s = SignalConfig::default();
    assert_eq!(evaluate_place_signal(&s, 990_000, 10_000, 5), MarketSignal::Good);
}

#[test]
fn signal_stable_prices_are_good() {
    let s = enabled_signal();
    assert_eq!(evaluate_place_signal(&s, 450_000, 550_000, 600), MarketSignal::Good);
}

#[test]
fn signal_clearing_market_is_bad() {
    let s = enabled_signal();
    assert_eq!(evaluate_place_signal(&s, 950_000, 50_000, 120), MarketSignal::Bad);
    assert_eq!(evaluate_place_signal(&s, 50_000, 900_000, 180), MarketSignal::Bad);
}

#[test]
fn signal_high_price_with_time_left_is_unknown() {
    let s = enabled_signal();
    assert_eq!(evaluate_place_signal(&s, 950_000, 50_000, 600), MarketSignal::Unknown);
    assert_eq!(evaluate_place_signal(&s, 850_000, 150_000, 600), MarketSignal::Unknown);
}

#[test]
fn danger_signal_at_or_below_danger_price() {
    let s = enabled_signal();
    assert!(is_danger_signal(&s, 280_000));
    assert!(is_danger_signal(&s, 100_000));
    assert!(!is_danger_signal(&s, 280_001));
}
