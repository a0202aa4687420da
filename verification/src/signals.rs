//! The placement signal read off the current market, and the danger signal
//! of a one-sided position.
use vstd::prelude::*;
use crate::config::SignalConfig;

verus! {

/// Whether the current market allows placing orders.
#[derive(PartialEq, Eq, Structural, Clone, Copy, Debug)]
pub enum MarketSignal {
    /// Prices are stable: orders may be placed.
    Good,
    /// The market is clearing (one side near certain with little time
    /// left): skip the next period.
    Bad,
    /// Neither, or the market could not be read.
    Unknown,
}

/// The "clear" condition: one side is at or above `clear_threshold` with at
/// most `clear_remaining_mins` minutes left.
pub open spec fn is_clearing(cfg: SignalConfig, up: int, down: int, time_remaining: int) -> bool {
    (up >= cfg.clear_threshold || down >= cfg.clear_threshold)
        && time_remaining <= cfg.clear_remaining_mins * 60
}

/// Both prices lie within `[stable_min, stable_max]`.
pub open spec fn is_stable(cfg: SignalConfig, up: int, down: int) -> bool {
    cfg.stable_min <= up <= cfg.stable_max && cfg.stable_min <= down <= cfg.stable_max
}

/// The placement signal: always `Good` when signals are disabled; otherwise
/// `Bad` when the market is clearing, `Good` when both prices are stable,
/// `Unknown` else.
pub open spec fn spec_place_signal(cfg: SignalConfig, up: int, down: int, time_remaining: int) -> MarketSignal {
    if !cfg.enabled {
        MarketSignal::Good
    } else if is_clearing(cfg, up, down, time_remaining) {
        MarketSignal::Bad
    } else if is_stable(cfg, up, down) {
        MarketSignal::Good
    } else {
        MarketSignal::Unknown
    }
}

/// Evaluates the placement signal from the current Up and Down prices and
/// the seconds left in the current period.
pub fn evaluate_place_signal(cfg: &SignalConfig, up_price: i64, down_price: i64, time_remaining: i64) -> (r: MarketSignal)
    requires
        cfg.wf(),
    ensures
        r == spec_place_signal(*cfg, up_price as int, down_price as int, time_remaining as int),
{
    if !cfg.enabled {
        return MarketSignal::Good;
    }
    let clear_secs: i64 = (cfg.clear_remaining_mins * 60) as i64;
    if (up_price >= cfg.clear_threshold || down_price >= cfg.clear_threshold) && time_remaining <= clear_secs {
        MarketSignal::Bad
    } else if cfg.stable_min <= up_price && up_price <= cfg.stable_max && cfg.stable_min <= down_price
        && down_price <= cfg.stable_max {
        MarketSignal::Good
    } else {
        MarketSignal::Unknown
    }
}

/// The danger signal of a one-sided position: the matched token's price has
/// fallen to `danger_price` or below.
pub fn is_danger_signal(cfg: &SignalConfig, price: i64) -> (r: bool)
    ensures
        r == (price <= cfg.danger_price),
{
    price <= cfg.danger_price
}

} // verus!
