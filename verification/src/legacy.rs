//! The decisions of the first version of the strategy, which placed fixed
//! pre-orders at the configured limit and sized every sale by the configured
//! share count.
use vstd::prelude::*;
use crate::closure::Settlement;
use crate::config::StrategyConfig;
use crate::models::{OrderRequest, OrderResponse};
use crate::processor::{spec_winner, simulated_id, MID_MARKET_PAIR_TARGET, Quote, RiskMode};
use crate::risk::hits_limit;
use crate::state::{CycleTrade, PreLimitOrderState, Side, MARKET_DURATION_SECS, MARKET_DURATION_SECS_U64, is_time};
use crate::text::{self, str_lowercase};
use crate::signals::MarketSignal;
use crate::units::{SCALE, MAX_AMOUNT, spec_round_price, round_price, trunc_div, value_of, spec_value_of};

verus! {

/// A lone matched leg awaits protection (any status).
pub open spec fn spec_legacy_needs_danger(state: Option<PreLimitOrderState>) -> bool {
    match state {
        Some(s) => !s.merged && !s.risk_sold && s.one_side_only(),
        None => false,
    }
}

/// Whether a lone matched leg awaits protection.
pub fn legacy_needs_danger_handling(state: &Option<PreLimitOrderState>) -> (r: bool)
    ensures
        r == spec_legacy_needs_danger(*state),
{
    match state {
        Some(s) => !s.merged && !s.risk_sold && ((s.up_matched && !s.down_matched) || (s.down_matched && !s.up_matched)),
        None => false,
    }
}

/// Pre-orders for the next period are sought: within the pre-order window
/// before it, the next market not yet prepared, and no lone leg awaiting
/// protection.
pub open spec fn spec_legacy_should_seek_preorders(cfg: StrategyConfig, state: Option<PreLimitOrderState>, current_period: int, now: int) -> bool {
    &&& current_period + MARKET_DURATION_SECS - now <= cfg.place_order_before_mins * 60
    &&& !(state matches Some(s) && s.expiry == current_period + 2 * MARKET_DURATION_SECS)
    &&& !spec_legacy_needs_danger(state)
}

/// Whether pre-orders for the next period are sought: within
/// `place_order_before_mins` of the next period, the next market not yet
/// prepared, no lone leg awaiting protection.
pub fn legacy_should_seek_preorders(cfg: &StrategyConfig, state: &Option<PreLimitOrderState>, current_period: i64, now: i64) -> (r: bool)
    requires
        cfg.wf(),
        is_time(current_period),
        is_time(now),
    ensures
        r == spec_legacy_should_seek_preorders(*cfg, *state, current_period as int, now as int),
{
    let next_period_start = current_period + MARKET_DURATION_SECS;
    let window: i64 = (cfg.place_order_before_mins * 60) as i64;
    if next_period_start - now > window {
        return false;
    }
    let prepared = match state {
        Some(s) => s.expiry == next_period_start + MARKET_DURATION_SECS,
        None => false,
    };
    !prepared && !legacy_needs_danger_handling(state)
}

/// The pre-order decision of a tick: with the orders sought and a `Good`
/// signal from the current market, both legs at the configured limit for the
/// configured shares; otherwise none.
pub fn legacy_decide_preorder(
    cfg: &StrategyConfig,
    state: &Option<PreLimitOrderState>,
    signal: MarketSignal,
    current_period: i64,
    now: i64,
) -> (q: Option<Quote>)
    requires
        cfg.wf(),
        is_time(current_period),
        is_time(now),
    ensures
        q == (if spec_legacy_should_seek_preorders(*cfg, *state, current_period as int, now as int)
            && signal == MarketSignal::Good {
            Some(Quote { up_price: cfg.price_limit, down_price: cfg.price_limit, shares: cfg.shares })
        } else {
            None
        }),
{
    if legacy_should_seek_preorders(cfg, state, current_period, now) && signal == MarketSignal::Good {
        Some(legacy_preorder_quote(cfg))
    } else {
        None
    }
}

/// The fixed pre-order quote: both legs at the configured limit (the order
/// rounds it to a cent) for the configured shares.
pub fn legacy_preorder_quote(cfg: &StrategyConfig) -> (q: Quote)
    ensures
        q == (Quote { up_price: cfg.price_limit, down_price: cfg.price_limit, shares: cfg.shares }),
{
    Quote { up_price: cfg.price_limit, down_price: cfg.price_limit, shares: cfg.shares }
}

/// Whether fills of `s` are looked for at `now`: only once its market has
/// started.
pub fn legacy_market_started(s: &PreLimitOrderState, now: i64) -> (r: bool)
    ensures
        r == (now >= s.market_period_start),
{
    now >= s.market_period_start
}

/// Records which orders filled; share counts are not tracked.
pub fn legacy_apply_fills(s: &mut PreLimitOrderState, up_filled: bool, down_filled: bool)
    ensures
        *final(s) == (PreLimitOrderState {
            up_matched: old(s).up_matched || up_filled,
            down_matched: old(s).down_matched || down_filled,
            ..*old(s)
        }),
{
    if up_filled && !s.up_matched {
        s.up_matched = true;
    }
    if down_filled && !s.down_matched {
        s.down_matched = true;
    }
}

/// Infers fills from current prices (`None` when unreadable); returns which
/// legs became matched.
pub fn legacy_apply_price_fills(s: &mut PreLimitOrderState, up_price: Option<i64>, down_price: Option<i64>) -> (r: (bool, bool))
    ensures
        r.0 == (!old(s).up_matched && up_price is Some && hits_limit(up_price.unwrap() as int, old(s).up_order_price as int)),
        r.1 == (!old(s).down_matched && down_price is Some && hits_limit(down_price.unwrap() as int, old(s).down_order_price as int)),
        *final(s) == (PreLimitOrderState {
            up_matched: old(s).up_matched || r.0,
            down_matched: old(s).down_matched || r.1,
            ..*old(s)
        }),
{
    let mut up_new = false;
    let mut down_new = false;
    if let Some(p) = up_price {
        if crate::risk::price_hits_limit(p, s.up_order_price) && !s.up_matched {
            up_new = true;
        }
    }
    if let Some(p) = down_price {
        if crate::risk::price_hits_limit(p, s.down_order_price) && !s.down_matched {
            down_new = true;
        }
    }
    legacy_apply_fills(s, up_new, down_new);
    (up_new, down_new)
}

/// The losing-leg sale of a formed straddle: a winner stands and at most
/// `sell_opposite_time_remaining` whole minutes remain in the period.
/// Returns the winner, the token sold and what it was bought at.
pub fn legacy_plan_loser_sale(cfg: &StrategyConfig, s: &PreLimitOrderState, up_price: i64, down_price: i64, now: i64) -> (r: Option<(Side, String, i64)>)
    requires
        cfg.wf(),
        s.wf(),
        is_time(now),
    ensures
        r is Some == (spec_winner(cfg.sell_opposite_above as int, up_price as int, down_price as int) is Some
            && trunc_div(s.market_period_start + MARKET_DURATION_SECS - now, 60) <= cfg.sell_opposite_time_remaining),
        r matches Some(x) ==> {
            &&& Some(x.0) == spec_winner(cfg.sell_opposite_above as int, up_price as int, down_price as int)
            &&& x.0 == Side::Up ==> x.1 == s.down_token_id && x.2 == s.down_order_price
            &&& x.0 == Side::Down ==> x.1 == s.up_token_id && x.2 == s.up_order_price
        },
{
    let threshold = cfg.sell_opposite_above;
    let winner = if up_price >= threshold {
        Side::Up
    } else if down_price >= threshold {
        Side::Down
    } else {
        return None;
    };
    let time_remaining_mins = (s.market_period_start + MARKET_DURATION_SECS - now) / 60;
    let limit: i64 = cfg.sell_opposite_time_remaining as i64;
    if time_remaining_mins > limit {
        return None;
    }
    match winner {
        Side::Up => Some((Side::Up, s.down_token_id.clone(), s.down_order_price)),
        Side::Down => Some((Side::Down, s.up_token_id.clone(), s.up_order_price)),
    }
}

/// The loss of selling the configured shares bought at `purchase_price` at
/// `sell_price`.
pub fn legacy_sale_loss(cfg: &StrategyConfig, purchase_price: i64, sell_price: i64) -> (l: i64)
    requires
        cfg.wf(),
        0 <= purchase_price <= SCALE,
        0 <= sell_price <= SCALE,
    ensures
        l == spec_value_of(cfg.shares as int, purchase_price - sell_price),
{
    value_of(cfg.shares, purchase_price - sell_price)
}

/// After the loser is sold: the state is merged and the position left
/// holding the winner, `shares` of it, is returned for settlement.
pub fn legacy_apply_loser_sale(s: &mut PreLimitOrderState, winner: Side, shares: i64) -> (t: CycleTrade)
    ensures
        *final(s) == (PreLimitOrderState { merged: true, ..*old(s) }),
        t.condition_id == old(s).condition_id,
        t.period_timestamp == old(s).market_period_start as u64,
        t.market_duration_secs == MARKET_DURATION_SECS_U64,
        t.up_token_id == Some(old(s).up_token_id),
        t.down_token_id == Some(old(s).down_token_id),
        winner == Side::Up ==> t.up_shares == shares && t.down_shares == 0
            && t.up_avg_price == old(s).up_order_price && t.down_avg_price == 0,
        winner == Side::Down ==> t.up_shares == 0 && t.down_shares == shares
            && t.up_avg_price == 0 && t.down_avg_price == old(s).down_order_price,
{
    s.merged = true;
    legacy_holding_winner(s, winner, shares)
}

/// The position left holding the winner, sized by the configured shares.
pub fn legacy_holding_winner(s: &PreLimitOrderState, winner: Side, shares: i64) -> (t: CycleTrade)
    ensures
        t.condition_id == s.condition_id,
        t.period_timestamp == s.market_period_start as u64,
        t.market_duration_secs == MARKET_DURATION_SECS_U64,
        t.up_token_id == Some(s.up_token_id),
        t.down_token_id == Some(s.down_token_id),
        winner == Side::Up ==> t.up_shares == shares && t.down_shares == 0
            && t.up_avg_price == s.up_order_price && t.down_avg_price == 0,
        winner == Side::Down ==> t.up_shares == 0 && t.down_shares == shares
            && t.up_avg_price == 0 && t.down_avg_price == s.down_order_price,
{
    let (up_shares, down_shares, up_avg, down_avg) = match winner {
        Side::Up => (shares, 0i64, s.up_order_price, 0i64),
        Side::Down => (0i64, shares, 0i64, s.down_order_price),
    };
    CycleTrade {
        condition_id: s.condition_id.clone(),
        period_timestamp: s.market_period_start as u64,
        market_duration_secs: MARKET_DURATION_SECS_U64,
        up_token_id: Some(s.up_token_id.clone()),
        down_token_id: Some(s.down_token_id.clone()),
        up_shares,
        down_shares,
        up_avg_price: up_avg,
        down_avg_price: down_avg,
    }
}

/// The straddle held to expiry, sized by the configured shares on both legs.
pub fn legacy_holding_both(s: &PreLimitOrderState, shares: i64) -> (t: CycleTrade)
    ensures
        t.condition_id == s.condition_id,
        t.period_timestamp == s.market_period_start as u64,
        t.market_duration_secs == MARKET_DURATION_SECS_U64,
        t.up_token_id == Some(s.up_token_id),
        t.down_token_id == Some(s.down_token_id),
        t.up_shares == shares && t.down_shares == shares,
        t.up_avg_price == s.up_order_price && t.down_avg_price == s.down_order_price,
{
    CycleTrade {
        condition_id: s.condition_id.clone(),
        period_timestamp: s.market_period_start as u64,
        market_duration_secs: MARKET_DURATION_SECS_U64,
        up_token_id: Some(s.up_token_id.clone()),
        down_token_id: Some(s.down_token_id.clone()),
        up_shares: shares,
        down_shares: shares,
        up_avg_price: s.up_order_price,
        down_avg_price: s.down_order_price,
    }
}

/// The risk mode named by a configuration string, matched exactly after
/// lowercasing: `price` or `sell_at_danger_price`, `time` or
/// `sell_after_danger_time_passed`, anything else none.
pub open spec fn spec_legacy_risk_mode(mode: Seq<char>) -> RiskMode {
    spec_legacy_risk_mode_of_lower(str_lowercase(mode))
}

/// The legacy risk mode named by a lowercased configuration string, matched
/// exactly.
pub open spec fn spec_legacy_risk_mode_of_lower(m: Seq<char>) -> RiskMode {
    if m == "price"@ || m == "sell_at_danger_price"@ {
        RiskMode::Price
    } else if m == "time"@ || m == "sell_after_danger_time_passed"@ {
        RiskMode::Time
    } else {
        RiskMode::Off
    }
}

/// The legacy risk mode named by a lowercased configuration string (see
/// [`spec_legacy_risk_mode_of_lower`]).
pub fn legacy_risk_mode_of_lower(l: &str) -> (m: RiskMode)
    ensures
        m == spec_legacy_risk_mode_of_lower(l@),
{
    if text::str_eq(l, "price") || text::str_eq(l, "sell_at_danger_price") {
        RiskMode::Price
    } else if text::str_eq(l, "time") || text::str_eq(l, "sell_after_danger_time_passed") {
        RiskMode::Time
    } else {
        RiskMode::Off
    }
}

/// The configured risk mode (see [`spec_legacy_risk_mode`]).
pub fn legacy_risk_mode(cfg: &StrategyConfig) -> (m: RiskMode)
    ensures
        m == spec_legacy_risk_mode(cfg.signal.one_side_buy_risk_management@),
{
    let lower = text::lowercase(cfg.signal.one_side_buy_risk_management.as_str());
    legacy_risk_mode_of_lower(lower.as_str())
}

/// Whether a lone matched leg is sold early: in price mode when its price
/// could be read and is at or below the danger price; in time mode once
/// the danger time has passed since it matched.
pub fn legacy_should_sell_early(cfg: &StrategyConfig, mode: RiskMode, s: &PreLimitOrderState, matched_price: Option<i64>, now: i64) -> (r: bool)
    requires
        cfg.wf(),
        s.wf(),
        is_time(now),
    ensures
        r == (s.one_side_only() && match mode {
            RiskMode::Price => matched_price matches Some(p) && p <= cfg.signal.danger_price,
            RiskMode::Time => s.one_side_matched_at matches Some(t) && now - t >= cfg.signal.danger_time_passed * 60,
            RiskMode::Off => false,
        }),
{
    let only_one = (s.up_matched && !s.down_matched) || (s.down_matched && !s.up_matched);
    if !only_one {
        return false;
    }
    match mode {
        RiskMode::Price => match matched_price {
            Some(p) => p <= cfg.signal.danger_price,
            None => false,
        },
        RiskMode::Time => {
            let secs: i64 = (cfg.signal.danger_time_passed * 60) as i64;
            match s.one_side_matched_at {
                Some(t) => now - t >= secs,
                None => false,
            }
        },
        RiskMode::Off => false,
    }
}

/// The redemption requested when trading live: the Up token when Up won and
/// more than 0.001 shares of it are held, else the Down token.
pub fn legacy_redemption(t: &CycleTrade, s: &Settlement, simulation: bool) -> (r: Option<(String, Side)>)
    ensures
        r is Some == (!simulation && (s.up_wins || s.down_wins)),
        r matches Some(p) ==> {
            &&& (s.up_wins && t.up_shares > 1_000) ==> p.1 == Side::Up && p.0@ == (match t.up_token_id {
                Some(i) => i@,
                None => Seq::<char>::empty(),
            })
            &&& !(s.up_wins && t.up_shares > 1_000) ==> p.1 == Side::Down && p.0@ == (match t.down_token_id {
                Some(i) => i@,
                None => Seq::<char>::empty(),
            })
        },
{
    if simulation || !(s.up_wins || s.down_wins) {
        return None;
    }
    if s.up_wins && t.up_shares > 1_000 {
        let id = match &t.up_token_id {
            Some(i) => i.clone(),
            None => String::new(),
        };
        Some((id, Side::Up))
    } else {
        let id = match &t.down_token_id {
            Some(i) => i.clone(),
            None => String::new(),
        };
        Some((id, Side::Down))
    }
}

/// The mid-period quote: the cheaper side at its price and the dearer at
/// `0.98` minus it, both rounded to a cent, for the configured shares.
pub fn legacy_mid_market_quote(cfg: &StrategyConfig, up_price: i64, down_price: i64) -> (q: Quote)
    requires
        0 <= up_price <= SCALE,
        0 <= down_price <= SCALE,
    ensures
        up_price <= down_price ==> q == (Quote {
            up_price: spec_round_price(up_price as int) as i64,
            down_price: spec_round_price(MID_MARKET_PAIR_TARGET - up_price) as i64,
            shares: cfg.shares,
        }),
        up_price > down_price ==> q == (Quote {
            up_price: spec_round_price(MID_MARKET_PAIR_TARGET - down_price) as i64,
            down_price: spec_round_price(down_price as int) as i64,
            shares: cfg.shares,
        }),
{
    if up_price <= down_price {
        Quote { up_price: round_price(up_price), down_price: round_price(MID_MARKET_PAIR_TARGET - up_price), shares: cfg.shares }
    } else {
        Quote { up_price: round_price(MID_MARKET_PAIR_TARGET - down_price), down_price: round_price(down_price), shares: cfg.shares }
    }
}

/// The made-up answer of a simulated order placed at `ts`.
pub fn legacy_simulated_order_response(side: &str, ts: i64) -> (r: OrderResponse)
    ensures
        r.order_id matches Some(id) && id@ == simulated_id(side@, ts as int),
        r.status@ == "SIMULATED"@,
        r.message matches Some(m) && m@ == "Order simulated (not placed)"@,
{
    let mut resp = crate::processor::simulated_order_response(side, ts);
    resp.message = Some("Order simulated (not placed)".to_string());
    resp
}

/// The limit order sent for the configured shares.
pub fn legacy_limit_order_request(cfg: &StrategyConfig, token_id: &str, side: &str, price: i64) -> (o: OrderRequest)
    ensures
        crate::processor::spec_limit_order(token_id@, side@, price as int, cfg.shares as int, o),
{
    crate::processor::limit_order_request(token_id, side, price, cfg.shares)
}

} // verus!
