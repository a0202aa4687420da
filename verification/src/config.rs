//! Run-time configuration of the strategy.
//!
//! Every price, probability and fraction is held in micros (millionths),
//! every share count and dollar amount too; see [`crate::units`].
use vstd::prelude::*;
use crate::units::{SCALE, MAX_AMOUNT};

verus! {

/// Command-line arguments: the configuration file, and the redeem-only mode
/// with an optional condition to redeem.
pub struct Args {
    pub config: String,
    pub redeem: bool,
    pub condition_id: Option<String>,
}

/// Endpoints and credentials of the exchange.
pub struct PolymarketConfig {
    pub gamma_api_url: String,
    pub clob_api_url: String,
    pub api_key: Option<String>,
    pub api_secret: Option<String>,
    pub api_passphrase: Option<String>,
    pub private_key: Option<String>,
    pub proxy_wallet_address: Option<String>,
    pub signature_type: Option<u8>,
}

/// Settings of the placement signal and of the one-side risk management.
pub struct SignalConfig {
    pub enabled: bool,
    pub stable_min: i64,
    pub stable_max: i64,
    pub clear_threshold: i64,
    pub clear_remaining_mins: u64,
    pub danger_price: i64,
    pub danger_time_passed: u64,
    pub one_side_buy_risk_management: String,
    pub mid_market_enabled: bool,
    pub btc_correlation_enabled: bool,
    pub btc_correlation_threshold: i64,
    pub btc_correlation_min_straddle_cost: i64,
}

/// Settings of the strategy.
pub struct StrategyConfig {
    pub price_limit: i64,
    pub shares: i64,
    pub place_order_before_mins: u64,
    pub check_interval_ms: u64,
    pub simulation_mode: bool,
    pub signal: SignalConfig,
    pub sell_opposite_above: i64,
    pub sell_opposite_time_remaining: u64,
    pub market_closure_check_interval_seconds: u64,
    pub risk_aversion_gamma: i64,
    pub kelly_fraction_k: i64,
    pub bankroll_usdc: i64,
    pub assets: Vec<String>,
    pub straddle_hard_cap: i64,
    pub straddle_second_leg_cap: i64,
    pub loser_stop_loss_price: i64,
    pub fill_probability_btc: i64,
    pub fill_probability_eth: i64,
    pub fill_probability_sol: i64,
    pub fill_probability_xrp: i64,
}

/// The whole configuration.
pub struct Config {
    pub polymarket: PolymarketConfig,
    pub strategy: StrategyConfig,
}

/// The largest minute count the strategy turns into seconds.
pub const MAX_MINUTES: u64 = 1_000_000_000;

/// The largest Kelly fraction, either way, the sizing arithmetic handles:
/// one hundred billion (in micros).
pub const MAX_KELLY_FRACTION: i64 = 100_000_000_000_000_000;

/// A price or probability: a value in `[0, 1]`.
pub open spec fn is_unit(x: i64) -> bool {
    0 <= x <= SCALE
}

impl SignalConfig {
    /// The ranges within which the fixed-point arithmetic of the strategy
    /// stays exact: prices in `[0, 1]`, minute counts whose seconds fit.
    pub open spec fn wf(&self) -> bool {
        &&& is_unit(self.stable_min)
        &&& is_unit(self.stable_max)
        &&& is_unit(self.clear_threshold)
        &&& is_unit(self.danger_price)
        &&& self.clear_remaining_mins <= MAX_MINUTES
        &&& self.danger_time_passed <= MAX_MINUTES
    }
}

impl StrategyConfig {
    /// The ranges within which the fixed-point arithmetic of the strategy
    /// stays exact.
    pub open spec fn wf(&self) -> bool {
        &&& self.signal.wf()
        &&& is_unit(self.price_limit)
        &&& 0 <= self.shares <= MAX_AMOUNT / 5
        &&& self.place_order_before_mins <= MAX_MINUTES
        &&& is_unit(self.sell_opposite_above)
        &&& self.sell_opposite_time_remaining <= MAX_MINUTES
        &&& -MAX_KELLY_FRACTION <= self.kelly_fraction_k <= MAX_KELLY_FRACTION
    }
}

impl Config {
    /// See [`StrategyConfig::wf`].
    pub open spec fn wf(&self) -> bool {
        self.strategy.wf()
    }
}

/// Serde default of `SignalConfig::enabled`.
pub fn default_true() -> (r: bool)
    ensures
        r,
{
    true
}

/// Serde default of `SignalConfig::stable_min`: 0.20.
pub fn default_stable_min() -> (r: i64)
    ensures
        r == 200_000,
{
    200_000
}

/// Serde default of `SignalConfig::stable_max`: 0.80.
pub fn default_stable_max() -> (r: i64)
    ensures
        r == 800_000,
{
    800_000
}

/// Serde default of `SignalConfig::clear_threshold`: 0.99.
pub fn default_clear_threshold() -> (r: i64)
    ensures
        r == 990_000,
{
    990_000
}

/// Serde default of `SignalConfig::clear_remaining_mins`: 15 minutes.
pub fn default_clear_remaining_mins() -> (r: u64)
    ensures
        r == 15,
{
    15
}

/// Serde default of `SignalConfig::danger_price`: 0.28.
pub fn default_danger_price() -> (r: i64)
    ensures
        r == 280_000,
{
    280_000
}

/// Serde default of `SignalConfig::danger_time_passed`: 15 minutes.
pub fn default_danger_time_passed() -> (r: u64)
    ensures
        r == 15,
{
    15
}

/// Serde default of `SignalConfig::one_side_buy_risk_management`: `"price"`.
pub fn default_one_side_buy_risk_management() -> (r: String)
    ensures
        r@ == "price"@,
{
    "price".to_string()
}

/// Serde default of `StrategyConfig::sell_opposite_above`: 0.70.
pub fn default_sell_opposite_above() -> (r: i64)
    ensures
        r == 700_000,
{
    700_000
}

/// Serde default of `StrategyConfig::sell_opposite_time_remaining`: 10 minutes.
pub fn default_sell_opposite_time_remaining() -> (r: u64)
    ensures
        r == 10,
{
    10
}

/// Serde default of `StrategyConfig::market_closure_check_interval_seconds`.
pub fn default_market_closure_check_interval_seconds() -> (r: u64)
    ensures
        r == 120,
{
    120
}

/// Serde default of `StrategyConfig::risk_aversion_gamma`: 0.001.
pub fn default_risk_aversion_gamma() -> (r: i64)
    ensures
        r == 1_000,
{
    1_000
}

/// Serde default of `StrategyConfig::kelly_fraction_k`: 0.25.
pub fn default_kelly_fraction_k() -> (r: i64)
    ensures
        r == 250_000,
{
    250_000
}

/// Serde default of `StrategyConfig::bankroll_usdc`: 500 dollars.
pub fn default_bankroll_usdc() -> (r: i64)
    ensures
        r == 500_000_000,
{
    500_000_000
}

/// The four traded assets, as tickers.
pub open spec fn spec_default_assets() -> Seq<Seq<char>> {
    seq!["BTC"@, "ETH"@, "SOL"@, "XRP"@]
}

/// Serde default of `StrategyConfig::assets`: BTC, ETH, SOL, XRP.
pub fn default_assets() -> (r: Vec<String>)
    ensures
        r@.map_values(|s: String| s@) == spec_default_assets(),
{
    let v = vec!["BTC".to_string(), "ETH".to_string(), "SOL".to_string(), "XRP".to_string()];
    assert(v@.map_values(|s: String| s@) =~= spec_default_assets());
    v
}

/// Serde default of `SignalConfig::btc_correlation_threshold`: 0.003.
pub fn default_btc_correlation_threshold() -> (r: i64)
    ensures
        r == 3_000,
{
    3_000
}

/// Serde default of `SignalConfig::btc_correlation_min_straddle_cost`: 0.94.
pub fn default_btc_correlation_min_straddle_cost() -> (r: i64)
    ensures
        r == 940_000,
{
    940_000
}

/// Serde default of the two straddle caps: 0.94.
pub fn default_straddle_hard_cap() -> (r: i64)
    ensures
        r == 940_000,
{
    940_000
}

/// Serde default of `StrategyConfig::loser_stop_loss_price`: 0.25.
pub fn default_loser_stop_loss_price() -> (r: i64)
    ensures
        r == 250_000,
{
    250_000
}

/// Serde default of `StrategyConfig::fill_probability_btc`: 0.88.
pub fn default_fill_probability_btc() -> (r: i64)
    ensures
        r == 880_000,
{
    880_000
}

/// Serde default of `StrategyConfig::fill_probability_eth`: 0.85.
pub fn default_fill_probability_eth() -> (r: i64)
    ensures
        r == 850_000,
{
    850_000
}

/// Serde default of `StrategyConfig::fill_probability_sol`: 0.78.
pub fn default_fill_probability_sol() -> (r: i64)
    ensures
        r == 780_000,
{
    780_000
}

/// Serde default of `StrategyConfig::fill_probability_xrp`: 0.75.
pub fn default_fill_probability_xrp() -> (r: i64)
    ensures
        r == 750_000,
{
    750_000
}

impl Default for SignalConfig {
    /// The all-zero signal settings: disabled, every threshold 0, an empty
    /// risk-management mode. (The serde defaults above apply only to fields
    /// missing from a configuration file.)
    fn default() -> (r: Self)
        ensures
            !r.enabled,
            r.stable_min == 0,
            r.stable_max == 0,
            r.clear_threshold == 0,
            r.clear_remaining_mins == 0,
            r.danger_price == 0,
            r.danger_time_passed == 0,
            r.one_side_buy_risk_management@ == Seq::<char>::empty(),
            !r.mid_market_enabled,
            !r.btc_correlation_enabled,
            r.btc_correlation_threshold == 0,
            r.btc_correlation_min_straddle_cost == 0,
    {
        SignalConfig {
            enabled: false,
            stable_min: 0,
            stable_max: 0,
            clear_threshold: 0,
            clear_remaining_mins: 0,
            danger_price: 0,
            danger_time_passed: 0,
            one_side_buy_risk_management: String::new(),
            mid_market_enabled: false,
            btc_correlation_enabled: false,
            btc_correlation_threshold: 0,
            btc_correlation_min_straddle_cost: 0,
        }
    }
}

impl Default for Config {
    /// The configuration written out when no configuration file exists.
    fn default() -> (r: Self)
        ensures
            r.polymarket.gamma_api_url@ == "https://gamma-api.polymarket.com"@,
            r.polymarket.clob_api_url@ == "https://clob.polymarket.com"@,
            r.polymarket.api_key is None,
            r.polymarket.api_secret is None,
            r.polymarket.api_passphrase is None,
            r.polymarket.private_key is None,
            r.polymarket.proxy_wallet_address is None,
            r.polymarket.signature_type is None,
            r.strategy.price_limit == 450_000,
            r.strategy.shares == 5_000_000,
            r.strategy.place_order_before_mins == 3,
            r.strategy.check_interval_ms == 2000,
            !r.strategy.simulation_mode,
            !r.strategy.signal.enabled,
            r.strategy.signal.stable_min == 0,
            r.strategy.signal.stable_max == 0,
            r.strategy.signal.clear_threshold == 0,
            r.strategy.signal.clear_remaining_mins == 0,
            r.strategy.signal.danger_price == 0,
            r.strategy.signal.danger_time_passed == 0,
            r.strategy.signal.one_side_buy_risk_management@ == Seq::<char>::empty(),
            !r.strategy.signal.mid_market_enabled,
            !r.strategy.signal.btc_correlation_enabled,
            r.strategy.signal.btc_correlation_threshold == 0,
            r.strategy.signal.btc_correlation_min_straddle_cost == 0,
            r.strategy.sell_opposite_above == 700_000,
            r.strategy.sell_opposite_time_remaining == 10,
            r.strategy.market_closure_check_interval_seconds == 120,
            r.strategy.risk_aversion_gamma == 1_000,
            r.strategy.kelly_fraction_k == 250_000,
            r.strategy.bankroll_usdc == 500_000_000,
            r.strategy.assets@.map_values(|s: String| s@) == spec_default_assets(),
            r.strategy.straddle_hard_cap == 940_000,
            r.strategy.straddle_second_leg_cap == 940_000,
            r.strategy.loser_stop_loss_price == 250_000,
            r.strategy.fill_probability_btc == 880_000,
            r.strategy.fill_probability_eth == 850_000,
            r.strategy.fill_probability_sol == 780_000,
            r.strategy.fill_probability_xrp == 750_000,
            r.wf(),
    {
        Config {
            polymarket: PolymarketConfig {
                gamma_api_url: "https://gamma-api.polymarket.com".to_string(),
                clob_api_url: "https://clob.polymarket.com".to_string(),
                api_key: None,
                api_secret: None,
                api_passphrase: None,
                private_key: None,
                proxy_wallet_address: None,
                signature_type: None,
            },
            strategy: StrategyConfig {
                price_limit: 450_000,
                shares: 5_000_000,
                place_order_before_mins: 3,
                check_interval_ms: 2000,
                simulation_mode: false,
                signal: SignalConfig::default(),
                sell_opposite_above: 700_000,
                sell_opposite_time_remaining: 10,
                market_closure_check_interval_seconds: 120,
                risk_aversion_gamma: 1_000,
                kelly_fraction_k: 250_000,
                bankroll_usdc: 500_000_000,
                assets: default_assets(),
                straddle_hard_cap: 940_000,
                straddle_second_leg_cap: 940_000,
                loser_stop_loss_price: 250_000,
                fill_probability_btc: 880_000,
                fill_probability_eth: 850_000,
                fill_probability_sol: 780_000,
                fill_probability_xrp: 750_000,
            },
        }
    }
}

/// What one run commits, as confirmed at start-up: the cost of one side
/// (shares times limit price), of a pair, and of a side on each of the four
/// assets, in micros.
pub open spec fn spec_commitment(shares: int, price: int) -> (int, int, int) {
    let side = crate::units::spec_value_of(shares, price);
    (side, side * 2, side * 4)
}

impl StrategyConfig {
    /// The start-up commitment of this configuration (see
    /// [`spec_commitment`]).
    pub fn commitment(&self) -> (r: (i64, i64, i64))
        requires
            self.wf(),
        ensures
            ({
                let (a, b, c) = spec_commitment(self.shares as int, self.price_limit as int);
                r.0 == a && r.1 == b && r.2 == c
            }),
    {
        let side = crate::units::value_of(self.shares, self.price_limit);
        (side, side * 2, side * 4)
    }
}

} // verus!
