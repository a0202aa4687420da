//! The per-asset decisions of the strategy, taken once per tick.
//!
//! Each step reads the asset's state, the clock and what the exchange
//! reported, and says what to do next; the caller performs the exchange
//! calls in between.
use vstd::prelude::*;
use crate::config::StrategyConfig;
use crate::risk::{RiskManager, spec_kelly_size, spec_inventory_penalty, spec_shares_to_use};
use crate::state::{
    CycleStatus, CycleTrade, PreLimitOrderState, Side, MARKET_DURATION_SECS, MAX_TIME, is_time,
};
use crate::text;
use crate::signals::MarketSignal;
use crate::models::{Market, OrderRequest, OrderResponse};
use crate::keyed::KeyedVec;
use crate::units::{SCALE, MAX_AMOUNT, spec_round_price, round_price, round_price_wide, trunc_div, value_of, spec_value_of};

verus! {

/// The most a straddle may cost (both legs together) to be placed: 0.94.
pub const MAX_STRADDLE_COST: i64 = 940_000;

/// The Up win probability assumed when sizing pre-orders.
pub const PREORDER_P_UP: i64 = 520_000;

/// The Down win probability assumed when sizing pre-orders (`1 - 0.52`).
pub const PREORDER_P_DOWN: i64 = 480_000;

/// The win probability assumed for each leg of a mid-period entry.
pub const MID_MARKET_P: i64 = 500_000;

/// The pair sum targeted by a mid-period entry: 0.98.
pub const MID_MARKET_PAIR_TARGET: i64 = 980_000;

/// BTC move over one second that triggers a front-run on an altcoin: 0.25%.
pub const BTC_BREAKOUT: i64 = 2_500;

/// The floor of a danger sell's limit price: 0.05.
pub const DANGER_SELL_FLOOR: i64 = 50_000;

/// Seconds into the period after which an unfilled entry is abandoned.
pub const ENTRY_DEADLINE_SECS: i64 = 720;

/// Seconds after placement by which the straddle must have formed.
pub const STRADDLE_TIMEOUT_SECS: i64 = 180;

/// Seconds into the period before which no pre-orders are placed.
pub const MIN_ELAPSED_FOR_PREORDER: i64 = 60;

/// Prices and size of a pair of buy orders.
#[derive(PartialEq, Eq, Structural, Clone, Copy, Debug)]
pub struct Quote {
    pub up_price: i64,
    pub down_price: i64,
    pub shares: i64,
}

/// The sale of the losing leg of a formed straddle.
pub struct LoserSale {
    /// The leg kept to resolution.
    pub winner: Side,
    /// The token sold.
    pub token_to_sell: String,
    /// What the sold leg was bought at.
    pub purchase_price: i64,
    /// How many shares are sold.
    pub shares: i64,
}

/// The early exit of a lone matched leg.
#[derive(PartialEq, Eq, Structural, Clone, Copy, Debug)]
pub struct DangerSale {
    /// The matched leg that is sold.
    pub side: Side,
    /// The limit price of the sale.
    pub limit_price: i64,
    /// How many shares are sold.
    pub shares: i64,
    /// What the leg was bought at.
    pub purchase_price: i64,
    /// The loss realised, `(purchase_price - limit_price) * shares`.
    pub loss: i64,
}

/// How a lone matched leg is protected.
#[derive(PartialEq, Eq, Structural, Clone, Copy, Debug)]
pub enum RiskMode {
    /// Sell when the matched token's price falls to the danger price.
    Price,
    /// Sell once the danger time has passed since the leg matched.
    Time,
    /// Never sell early.
    Off,
}

/// Pre-orders for the next period are sought: inside the pre-order window,
/// the next market not yet prepared, and no lone leg awaiting protection.
pub open spec fn spec_should_seek_preorders(cfg: StrategyConfig, state: Option<PreLimitOrderState>, current_period: int, now: int) -> bool {
    &&& in_preorder_window(cfg.place_order_before_mins as int, current_period, now)
    &&& !(state matches Some(s) && s.expiry == current_period + 2 * MARKET_DURATION_SECS)
    &&& !spec_needs_danger_handling(state)
}

/// What a tick decides about pre-orders for the next period.
#[derive(PartialEq, Eq, Structural, Clone, Copy, Debug)]
pub enum PreorderDecision {
    /// No pre-orders now: outside the window, already prepared, a lone leg
    /// to protect, or a signal other than `Good`.
    Hold,
    /// Pre-orders are due but the skewed pair costs more than the cap; the
    /// tick ends once the next market is found.
    TooExpensive,
    /// Place this pair on the next market.
    Place(Quote),
}

/// The pre-order decision: with the orders sought and a `Good` signal, the
/// planned quote (see [`spec_preorder_quote`]) or, when it is too dear,
/// `TooExpensive`; otherwise `Hold`.
pub open spec fn spec_preorder_decision(
    cfg: StrategyConfig,
    bankroll: int,
    state: Option<PreLimitOrderState>,
    signal: MarketSignal,
    up_inv: int,
    down_inv: int,
    current_period: int,
    now: int,
) -> PreorderDecision {
    if !spec_should_seek_preorders(cfg, state, current_period, now) || signal != MarketSignal::Good {
        PreorderDecision::Hold
    } else {
        match spec_preorder_quote(cfg, bankroll, up_inv, down_inv) {
            Some(q) => PreorderDecision::Place(q),
            None => PreorderDecision::TooExpensive,
        }
    }
}

/// The position of a straddle held to resolution: both legs' order shares
/// at their order prices.
pub open spec fn spec_holding_both(s: PreLimitOrderState) -> CycleTrade {
    CycleTrade {
        condition_id: s.condition_id,
        period_timestamp: s.market_period_start as u64,
        market_duration_secs: crate::state::MARKET_DURATION_SECS_U64,
        up_token_id: Some(s.up_token_id),
        down_token_id: Some(s.down_token_id),
        up_shares: s.up_order_shares,
        down_shares: s.down_order_shares,
        up_avg_price: s.up_order_price,
        down_avg_price: s.down_order_price,
    }
}

/// Both legs matched, neither sold: the straddle is held intact.
pub open spec fn holds_intact_straddle(s: PreLimitOrderState) -> bool {
    s.up_matched && s.down_matched && !s.risk_sold && !s.merged
}

/// The position handed over for settlement when a state leaves: its
/// straddle when it holds one intact, else none (a sold loser's winner was
/// handed over when it was sold).
pub open spec fn spec_handover(state: Option<PreLimitOrderState>) -> Option<CycleTrade> {
    match state {
        Some(s) => if holds_intact_straddle(s) { Some(spec_holding_both(s)) } else { None },
        None => None,
    }
}

/// What happens to a state at the end of a tick.
pub struct ExpiryOutcome {
    /// The market has ended: the state is dropped.
    pub expired: bool,
    /// The straddle held to expiry, handed over for settlement.
    pub trade: Option<CycleTrade>,
    /// The loss logged for the expired cycle.
    pub loss: i64,
}

/// The Up and Down quote around `base` skewed by `delta`, before the cost
/// cap: `round(base - delta)` and `round(base + delta)`.
pub open spec fn skewed_prices(base: int, delta: int) -> (int, int) {
    (spec_round_price(base - delta), spec_round_price(base + delta))
}

/// The quote for pre-orders on the next period: prices skewed against the
/// inventory, none when the pair would cost more than 0.94, and a
/// Kelly-sized share count.
pub open spec fn spec_preorder_quote(cfg: StrategyConfig, bankroll: int, up_inv: int, down_inv: int) -> Option<Quote> {
    let delta = spec_inventory_penalty(cfg.risk_aversion_gamma as int, up_inv, down_inv);
    let (up, down) = skewed_prices(cfg.price_limit as int, delta);
    if up + down > MAX_STRADDLE_COST {
        None
    } else {
        let n = spec_shares_to_use(
            spec_kelly_size(PREORDER_P_UP as int, up, cfg.kelly_fraction_k as int, bankroll),
            spec_kelly_size(PREORDER_P_DOWN as int, down, cfg.kelly_fraction_k as int, bankroll),
            cfg.shares as int,
        );
        Some(Quote { up_price: up as i64, down_price: down as i64, shares: n as i64 })
    }
}

/// The quote for entering the current period: the cheaper side at its
/// price, the dearer side at `0.98` minus it, none when the pair would cost
/// more than 0.94, and a Kelly-sized share count at even odds.
pub open spec fn spec_mid_market_quote(cfg: StrategyConfig, bankroll: int, up: int, down: int) -> Option<Quote> {
    let (u, d) = if up <= down {
        (spec_round_price(up), spec_round_price(MID_MARKET_PAIR_TARGET - up))
    } else {
        (spec_round_price(MID_MARKET_PAIR_TARGET - down), spec_round_price(down))
    };
    if u + d > MAX_STRADDLE_COST {
        None
    } else {
        let n = spec_shares_to_use(
            spec_kelly_size(MID_MARKET_P as int, u, cfg.kelly_fraction_k as int, bankroll),
            spec_kelly_size(MID_MARKET_P as int, d, cfg.kelly_fraction_k as int, bankroll),
            cfg.shares as int,
        );
        Some(Quote { up_price: u as i64, down_price: d as i64, shares: n as i64 })
    }
}

/// A lone matched leg still needs protecting, which blocks new pre-orders.
pub open spec fn spec_needs_danger_handling(state: Option<PreLimitOrderState>) -> bool {
    match state {
        Some(s) => !s.merged && !s.risk_sold && s.status != CycleStatus::WaitingForNextCycle && s.one_side_only(),
        None => false,
    }
}

/// The pre-order window: at most `place_order_before_mins` minutes before
/// the next period, and at least a minute into the current one.
pub open spec fn in_preorder_window(before_mins: int, current_period: int, now: int) -> bool {
    current_period + MARKET_DURATION_SECS - now <= before_mins * 60
        && now - current_period >= MIN_ELAPSED_FOR_PREORDER
}

/// The entry timeouts: an entry with no fill 12 minutes into the period, or
/// a straddle not formed 3 minutes after placement, stops accepting orders.
pub open spec fn entry_deadline_passed(s: PreLimitOrderState, now: int, current_period: int) -> bool {
    now - current_period > ENTRY_DEADLINE_SECS && s.status == CycleStatus::AcceptingOrders
        && !s.up_matched && !s.down_matched
}

/// See [`entry_deadline_passed`].
pub open spec fn straddle_timed_out(s: PreLimitOrderState, now: int) -> bool {
    now - s.order_placed_at > STRADDLE_TIMEOUT_SECS && s.status == CycleStatus::AcceptingOrders
        && (!s.up_matched || !s.down_matched)
}

/// The leg whose price reached the sell-opposite threshold (Up first).
pub open spec fn spec_winner(threshold: int, up_price: int, down_price: int) -> Option<Side> {
    if up_price >= threshold {
        Some(Side::Up)
    } else if down_price >= threshold {
        Some(Side::Down)
    } else {
        None
    }
}

/// The sale of the loser fires: a winner stands, at most
/// `sell_opposite_time_remaining` whole minutes remain before expiry, and
/// the loser is not already being closed.
pub open spec fn loser_sale_fires(cfg: StrategyConfig, s: PreLimitOrderState, up_price: int, down_price: int, now: int) -> bool {
    &&& spec_winner(cfg.sell_opposite_above as int, up_price, down_price) is Some
    &&& trunc_div(s.expiry - now, 60) <= cfg.sell_opposite_time_remaining
    &&& s.status != CycleStatus::ClosingLoser
}

/// The risk mode named by a lowercased configuration string: one
/// containing "price", else "time", else none.
pub open spec fn spec_risk_mode_of_lower(lower: Seq<char>) -> RiskMode {
    if text::contains_seq(lower, "price"@) {
        RiskMode::Price
    } else if text::contains_seq(lower, "time"@) {
        RiskMode::Time
    } else {
        RiskMode::Off
    }
}

/// The risk mode named by a configuration string, read from its lowercase
/// form.
pub open spec fn spec_risk_mode(mode: Seq<char>) -> RiskMode {
    spec_risk_mode_of_lower(text::str_lowercase(mode))
}

/// The risk mode named by a lowercased configuration string (see
/// [`spec_risk_mode_of_lower`]).
pub fn risk_mode_of_lower(lower: &str) -> (m: RiskMode)
    ensures
        m == spec_risk_mode_of_lower(lower@),
{
    if text::str_contains(lower, "price") {
        RiskMode::Price
    } else if text::str_contains(lower, "time") {
        RiskMode::Time
    } else {
        RiskMode::Off
    }
}

/// A lone matched leg is to be sold early.
pub open spec fn spec_should_sell_early(cfg: StrategyConfig, mode: RiskMode, s: PreLimitOrderState, matched_price: int, now: int) -> bool {
    if !s.one_side_only() {
        false
    } else {
        match mode {
            RiskMode::Price => matched_price <= cfg.signal.danger_price,
            RiskMode::Time => match s.one_side_matched_at {
                Some(t) => now - t >= cfg.signal.danger_time_passed * 60,
                None => false,
            },
            RiskMode::Off => false,
        }
    }
}

/// The limit price of a danger sale: 80% of the bid, but never below 0.05.
pub open spec fn spec_danger_limit(bid: int) -> int {
    if bid > 0 {
        let p = bid * 4 / 5;
        if p >= DANGER_SELL_FLOOR { p } else { DANGER_SELL_FLOOR as int }
    } else {
        DANGER_SELL_FLOOR as int
    }
}

/// The per-asset decision logic of the strategy.
pub struct MarketProcessor {
    pub risk: RiskManager,
}

impl MarketProcessor {
    /// The strategy configuration.
    pub open spec fn cfg(&self) -> StrategyConfig {
        self.risk.config
    }

    /// The processor is ready to decide.
    pub open spec fn wf(&self) -> bool {
        self.risk.wf()
    }

    /// A processor for the given configuration.
    pub fn new(config: StrategyConfig) -> (p: MarketProcessor)
        requires
            config.wf(),
            -MAX_AMOUNT <= config.bankroll_usdc <= MAX_AMOUNT,
        ensures
            p.cfg() == config,
            p.risk.spec_bankroll() == config.bankroll_usdc,
            p.wf(),
    {
        MarketProcessor { risk: RiskManager::new(config) }
    }

    /// Whether a lone matched leg still needs protecting.
    pub fn needs_danger_handling(state: &Option<PreLimitOrderState>) -> (r: bool)
        ensures
            r == spec_needs_danger_handling(*state),
    {
        match state {
            Some(s) => !s.merged && !s.risk_sold && s.status != CycleStatus::WaitingForNextCycle
                && ((s.up_matched && !s.down_matched) || (s.down_matched && !s.up_matched)),
            None => false,
        }
    }

    /// Whether pre-orders for the next period are to be sought now: inside
    /// the pre-order window, the next market not yet prepared, and no lone
    /// leg awaiting protection.
    pub fn should_seek_preorders(&self, state: &Option<PreLimitOrderState>, current_period: i64, now: i64) -> (r: bool)
        requires
            self.wf(),
            is_time(current_period),
            is_time(now),
        ensures
            r == spec_should_seek_preorders(self.cfg(), *state, current_period as int, now as int),
    {
        let next_period_start = current_period + MARKET_DURATION_SECS;
        let time_until_next = next_period_start - now;
        let window: i64 = (self.risk.config.place_order_before_mins * 60) as i64;
        let elapsed = now - current_period;
        if !(time_until_next <= window && elapsed >= MIN_ELAPSED_FOR_PREORDER) {
            return false;
        }
        let prepared = match state {
            Some(s) => s.expiry == next_period_start + MARKET_DURATION_SECS,
            None => false,
        };
        !prepared && !Self::needs_danger_handling(state)
    }

    /// The pre-order quote for an inventory of `up_inv` Up and `down_inv`
    /// Down shares (see [`spec_preorder_quote`]).
    pub fn plan_preorder(&self, up_inv: i64, down_inv: i64) -> (q: Option<Quote>)
        requires
            self.wf(),
            -MAX_AMOUNT <= up_inv <= MAX_AMOUNT,
            -MAX_AMOUNT <= down_inv <= MAX_AMOUNT,
        ensures
            q == spec_preorder_quote(self.cfg(), self.risk.spec_bankroll(), up_inv as int, down_inv as int),
    {
        let delta = self.risk.calculate_inventory_penalty(up_inv, down_inv);
        let base = self.risk.config.price_limit as i128;
        proof {
            assert(-0x8000_0000_0000_0000 * (2 * MAX_AMOUNT) <= self.risk.config.risk_aversion_gamma * (up_inv - down_inv)
                <= 0x8000_0000_0000_0000 * (2 * MAX_AMOUNT)) by (nonlinear_arith)
                requires
                    -0x8000_0000_0000_0000 <= self.risk.config.risk_aversion_gamma < 0x8000_0000_0000_0000,
                    -2 * MAX_AMOUNT <= up_inv - down_inv <= 2 * MAX_AMOUNT,
            ;
        }
        let up_price = round_price_wide(base - delta);
        let down_price = round_price_wide(base + delta);
        if up_price + down_price > MAX_STRADDLE_COST {
            return None;
        }
        let up_size = self.risk.calculate_kelly_size(PREORDER_P_UP, up_price);
        let down_size = self.risk.calculate_kelly_size(PREORDER_P_DOWN, down_price);
        let shares = shares_to_use(up_size, down_size, self.risk.config.shares);
        Some(Quote { up_price, down_price, shares })
    }

    /// The entry timeouts of a managed state; returns whether its resting
    /// orders are to be cancelled. Only the status changes.
    pub fn apply_entry_timeouts(&self, s: &mut PreLimitOrderState, now: i64, current_period: i64) -> (cancel: bool)
        requires
            old(s).wf(),
            is_time(now),
            is_time(current_period),
        ensures
            cancel == (entry_deadline_passed(*old(s), now as int, current_period as int)
                || straddle_timed_out(*old(s), now as int)),
            *final(s) == (if cancel {
                PreLimitOrderState { status: CycleStatus::WaitingForNextCycle, ..*old(s) }
            } else {
                *old(s)
            }),
    {
        let mut cancel = false;
        if now - current_period > ENTRY_DEADLINE_SECS && s.status == CycleStatus::AcceptingOrders
            && !s.up_matched && !s.down_matched {
            s.status = CycleStatus::WaitingForNextCycle;
            cancel = true;
        }
        if now - s.order_placed_at > STRADDLE_TIMEOUT_SECS && s.status == CycleStatus::AcceptingOrders
            && (!s.up_matched || !s.down_matched) {
            s.status = CycleStatus::WaitingForNextCycle;
            cancel = true;
        }
        cancel
    }

    /// A state accepting orders whose two legs matched has formed its
    /// straddle.
    pub fn mark_straddle_formed(s: &mut PreLimitOrderState)
        ensures
            *final(s) == (if old(s).up_matched && old(s).down_matched && old(s).status == CycleStatus::AcceptingOrders {
                PreLimitOrderState { status: CycleStatus::StraddleFormed, ..*old(s) }
            } else {
                *old(s)
            }),
    {
        if s.up_matched && s.down_matched && s.status == CycleStatus::AcceptingOrders {
            s.status = CycleStatus::StraddleFormed;
        }
    }

    /// Whether the BTC-correlation front-run is considered for this asset:
    /// an altcoin with an open entry and no leg matched yet.
    pub fn correlation_applies(asset: &str, s: &PreLimitOrderState) -> (r: bool)
        ensures
            r == (asset@ != "BTC"@ && !s.up_matched && !s.down_matched
                && s.status == CycleStatus::AcceptingOrders),
    {
        !text::str_eq(asset, "BTC") && !s.up_matched && !s.down_matched
            && s.status == CycleStatus::AcceptingOrders
    }

    /// The leg to buy at market ahead of a BTC move: Up when BTC rose by
    /// more than 0.25% over the last second, Down when it fell by more.
    pub fn correlation_side(s: &PreLimitOrderState, btc_move: Option<i64>) -> (r: Option<Side>)
        ensures
            r == (match btc_move {
                Some(v) => if v > BTC_BREAKOUT && !s.up_matched {
                    Some(Side::Up)
                } else if v < -BTC_BREAKOUT && !s.down_matched {
                    Some(Side::Down)
                } else {
                    None
                },
                None => None,
            }),
    {
        match btc_move {
            Some(v) => {
                if v > BTC_BREAKOUT && !s.up_matched {
                    Some(Side::Up)
                } else if v < -BTC_BREAKOUT && !s.down_matched {
                    Some(Side::Down)
                } else {
                    None
                }
            },
            None => None,
        }
    }

    /// Records a market buy of one leg at `entry_price`: the leg is matched
    /// with its order shares and the entry price is kept.
    pub fn apply_front_run(s: &mut PreLimitOrderState, side: Side, entry_price: i64)
        ensures
            side == Side::Up ==> *final(s) == (PreLimitOrderState {
                up_matched: true,
                up_shares: old(s).up_order_shares,
                winner_entry_price: Some(entry_price),
                ..*old(s)
            }),
            side == Side::Down ==> *final(s) == (PreLimitOrderState {
                down_matched: true,
                down_shares: old(s).down_order_shares,
                winner_entry_price: Some(entry_price),
                ..*old(s)
            }),
    {
        match side {
            Side::Up => {
                s.up_matched = true;
                s.up_shares = s.up_order_shares;
            },
            Side::Down => {
                s.down_matched = true;
                s.down_shares = s.down_order_shares;
            },
        }
        s.winner_entry_price = Some(entry_price);
    }

    /// The sale of the losing leg of a formed straddle, given both legs'
    /// current sell prices, or none when it does not fire.
    pub fn plan_loser_sale(&self, s: &PreLimitOrderState, up_price: i64, down_price: i64, now: i64) -> (r: Option<LoserSale>)
        requires
            self.wf(),
            s.wf(),
            is_time(now),
        ensures
            r is Some == loser_sale_fires(self.cfg(), *s, up_price as int, down_price as int, now as int),
            r matches Some(sale) ==> {
                &&& Some(sale.winner) == spec_winner(self.cfg().sell_opposite_above as int, up_price as int, down_price as int)
                &&& sale.winner == Side::Up ==> sale.token_to_sell == s.down_token_id
                    && sale.purchase_price == s.down_order_price && sale.shares == s.down_order_shares
                &&& sale.winner == Side::Down ==> sale.token_to_sell == s.up_token_id
                    && sale.purchase_price == s.up_order_price && sale.shares == s.up_order_shares
            },
    {
        let threshold = self.risk.config.sell_opposite_above;
        let time_remaining_mins = (s.expiry - now) / 60;
        let winner = if up_price >= threshold {
            Side::Up
        } else if down_price >= threshold {
            Side::Down
        } else {
            return None;
        };
        let limit: i64 = self.risk.config.sell_opposite_time_remaining as i64;
        if !(time_remaining_mins <= limit && s.status != CycleStatus::ClosingLoser) {
            return None;
        }
        match winner {
            Side::Up => Some(LoserSale {
                winner,
                token_to_sell: s.down_token_id.clone(),
                purchase_price: s.down_order_price,
                shares: s.down_order_shares,
            }),
            Side::Down => Some(LoserSale {
                winner,
                token_to_sell: s.up_token_id.clone(),
                purchase_price: s.up_order_price,
                shares: s.up_order_shares,
            }),
        }
    }

    /// Records that the loser is being sold: the cycle is closing, the
    /// winner's entry price is kept and the position is merged; returns the
    /// winner position to settle at resolution.
    pub fn apply_loser_sale(s: &mut PreLimitOrderState, winner: Side) -> (t: CycleTrade)
        ensures
            *final(s) == (PreLimitOrderState {
                status: CycleStatus::ClosingLoser,
                winner_entry_price: Some(if winner == Side::Up { old(s).up_order_price } else { old(s).down_order_price }),
                merged: true,
                ..*old(s)
            }),
            t == (CycleTrade {
                condition_id: old(s).condition_id,
                period_timestamp: old(s).market_period_start as u64,
                market_duration_secs: crate::state::MARKET_DURATION_SECS_U64,
                up_token_id: Some(old(s).up_token_id),
                down_token_id: Some(old(s).down_token_id),
                up_shares: if winner == Side::Up { old(s).up_order_shares } else { 0 },
                down_shares: if winner == Side::Up { 0 } else { old(s).down_order_shares },
                up_avg_price: if winner == Side::Up { old(s).up_order_price } else { 0 },
                down_avg_price: if winner == Side::Up { 0 } else { old(s).down_order_price },
            }),
    {
        s.status = CycleStatus::ClosingLoser;
        s.winner_entry_price = Some(match winner {
            Side::Up => s.up_order_price,
            Side::Down => s.down_order_price,
        });
        s.merged = true;
        CycleTrade::holding_winner(s, winner)
    }

    /// Remembers when only one leg first stood matched.
    pub fn track_one_side(s: &mut PreLimitOrderState, now: i64)
        ensures
            *final(s) == (if old(s).one_side_only() && old(s).one_side_matched_at is None {
                PreLimitOrderState { one_side_matched_at: Some(now), ..*old(s) }
            } else {
                *old(s)
            }),
    {
        let only_one = (s.up_matched && !s.down_matched) || (s.down_matched && !s.up_matched);
        if only_one && s.one_side_matched_at.is_none() {
            s.one_side_matched_at = Some(now);
        }
    }

    /// The configured one-side risk mode.
    pub fn risk_mode(&self) -> (m: RiskMode)
        ensures
            m == spec_risk_mode(self.cfg().signal.one_side_buy_risk_management@),
    {
        let lower = text::lowercase(self.risk.config.signal.one_side_buy_risk_management.as_str());
        risk_mode_of_lower(lower.as_str())
    }

    /// Whether a lone matched leg is to be sold early under `mode`, given
    /// the matched token's current sell price.
    pub fn should_sell_early(&self, mode: RiskMode, s: &PreLimitOrderState, matched_price: i64, now: i64) -> (r: bool)
        requires
            self.wf(),
            s.wf(),
            is_time(now),
        ensures
            r == spec_should_sell_early(self.cfg(), mode, *s, matched_price as int, now as int),
    {
        let only_one = (s.up_matched && !s.down_matched) || (s.down_matched && !s.up_matched);
        if !only_one {
            return false;
        }
        match mode {
            RiskMode::Price => self.risk.is_danger_signal(matched_price),
            RiskMode::Time => {
                let danger_secs: i64 = (self.risk.config.signal.danger_time_passed * 60) as i64;
                match s.one_side_matched_at {
                    Some(t) => now - t >= danger_secs,
                    None => false,
                }
            },
            RiskMode::Off => false,
        }
    }

    /// The exchange reported both orders filled: both legs are matched (and
    /// no early sale happens).
    pub fn apply_confirmed_straddle(s: &mut PreLimitOrderState)
        ensures
            *final(s) == (PreLimitOrderState { up_matched: true, down_matched: true, ..*old(s) }),
    {
        s.up_matched = true;
        s.down_matched = true;
    }

    /// The danger sale of the lone matched leg (Up if Up is matched, else
    /// Down) given its current bid.
    pub fn plan_danger_sale(s: &PreLimitOrderState, bid: i64) -> (d: DangerSale)
        requires
            s.wf(),
            0 <= bid <= SCALE,
        ensures
            d.side == (if s.up_matched { Side::Up } else { Side::Down }),
            d.limit_price == spec_danger_limit(bid as int),
            d.shares == (if s.up_matched { s.up_order_shares } else { s.down_order_shares }),
            d.purchase_price == (if s.up_matched { s.up_order_price } else { s.down_order_price }),
            d.loss == spec_value_of(d.shares as int, d.purchase_price - d.limit_price),
    {
        let limit_price = danger_limit_price(bid);
        if s.up_matched {
            let loss = value_of(s.up_order_shares, s.up_order_price - limit_price);
            DangerSale { side: Side::Up, limit_price, shares: s.up_order_shares, purchase_price: s.up_order_price, loss }
        } else {
            let loss = value_of(s.down_order_shares, s.down_order_price - limit_price);
            DangerSale {
                side: Side::Down,
                limit_price,
                shares: s.down_order_shares,
                purchase_price: s.down_order_price,
                loss,
            }
        }
    }

    /// Records a danger sale: the position is sold out and merged.
    pub fn apply_danger_sale(s: &mut PreLimitOrderState)
        ensures
            *final(s) == (PreLimitOrderState { risk_sold: true, merged: true, ..*old(s) }),
    {
        s.risk_sold = true;
        s.merged = true;
    }

    /// What the end of a tick does to a state at time `now`: after expiry
    /// the state is dropped, a straddle held intact is handed over for
    /// settlement, and the loss logged is the winner's entry cost.
    pub fn expiry_outcome(s: &PreLimitOrderState, now: i64) -> (o: ExpiryOutcome)
        requires
            s.wf(),
        ensures
            o.expired == (now > s.expiry),
            o.expired && s.up_matched && s.down_matched && !s.risk_sold && !s.merged
                ==> o.trade == Some(CycleTrade {
                    condition_id: s.condition_id,
                    period_timestamp: s.market_period_start as u64,
                    market_duration_secs: crate::state::MARKET_DURATION_SECS_U64,
                    up_token_id: Some(s.up_token_id),
                    down_token_id: Some(s.down_token_id),
                    up_shares: s.up_order_shares,
                    down_shares: s.down_order_shares,
                    up_avg_price: s.up_order_price,
                    down_avg_price: s.down_order_price,
                }),
            !(o.expired && s.up_matched && s.down_matched && !s.risk_sold && !s.merged) ==> o.trade is None,
            o.loss == (if o.expired {
                match s.winner_entry_price {
                    Some(p) => -spec_value_of(s.up_order_shares as int, p as int),
                    None => 0,
                }
            } else {
                0
            }),
    {
        if now > s.expiry {
            let trade = if s.up_matched && s.down_matched && !s.risk_sold && !s.merged {
                Some(CycleTrade::holding_both(s))
            } else {
                None
            };
            let loss = match s.winner_entry_price {
                Some(p) => 0 - value_of(s.up_order_shares, p),
                None => 0,
            };
            ExpiryOutcome { expired: true, trade, loss }
        } else {
            ExpiryOutcome { expired: false, trade: None, loss: 0 }
        }
    }

    /// The pre-order decision of a tick, given the placement signal read
    /// from the current market and the asset's held inventory (see
    /// [`spec_preorder_decision`]).
    pub fn decide_preorder(
        &self,
        state: &Option<PreLimitOrderState>,
        signal: MarketSignal,
        up_inv: i64,
        down_inv: i64,
        current_period: i64,
        now: i64,
    ) -> (d: PreorderDecision)
        requires
            self.wf(),
            is_time(current_period),
            is_time(now),
            -MAX_AMOUNT <= up_inv <= MAX_AMOUNT,
            -MAX_AMOUNT <= down_inv <= MAX_AMOUNT,
        ensures
            d == spec_preorder_decision(self.cfg(), self.risk.spec_bankroll(), *state, signal,
                up_inv as int, down_inv as int, current_period as int, now as int),
    {
        if !self.should_seek_preorders(state, current_period, now) || signal != MarketSignal::Good {
            return PreorderDecision::Hold;
        }
        match self.plan_preorder(up_inv, down_inv) {
            Some(q) => PreorderDecision::Place(q),
            None => PreorderDecision::TooExpensive,
        }
    }

    /// The position to hand over for settlement before `state` is replaced
    /// by new orders (see [`spec_handover`]).
    pub fn handover_on_replace(state: &Option<PreLimitOrderState>) -> (t: Option<CycleTrade>)
        ensures
            t == spec_handover(*state),
    {
        match state {
            Some(s) => Self::handover_of(s),
            None => None,
        }
    }

    /// The position to hand over for settlement when `s` leaves (see
    /// [`spec_handover`]).
    pub fn handover_of(s: &PreLimitOrderState) -> (t: Option<CycleTrade>)
        ensures
            t == spec_handover(Some(*s)),
    {
        if s.up_matched && s.down_matched && !s.risk_sold && !s.merged {
            Some(CycleTrade::holding_both(s))
        } else {
            None
        }
    }

    /// The end of a tick: once the market has ended the state leaves and its
    /// intact straddle, if any, is handed over for settlement; before that
    /// the state is kept as it is.
    pub fn finish_tick(s: PreLimitOrderState, now: i64) -> (r: (Option<PreLimitOrderState>, ExpiryOutcome))
        requires
            s.wf(),
        ensures
            r.1.expired == (now > s.expiry),
            r.1.expired ==> r.0 is None && r.1.trade == spec_handover(Some(s)),
            !r.1.expired ==> r.0 == Some(s) && r.1.trade is None,
            r.1.loss == (if r.1.expired {
                match s.winner_entry_price {
                    Some(p) => -spec_value_of(s.up_order_shares as int, p as int),
                    None => 0,
                }
            } else {
                0
            }),
    {
        let out = Self::expiry_outcome(&s, now);
        if out.expired {
            (None, out)
        } else {
            (Some(s), out)
        }
    }

    /// Whether an entry in the current period is to be sought for an asset
    /// with no state: more than the pre-order window and at least the danger
    /// time remain, and mid-period entries are enabled.
    pub fn should_seek_mid_market(&self, current_period: i64, now: i64) -> (r: bool)
        requires
            self.wf(),
            is_time(current_period),
            is_time(now),
        ensures
            r == (current_period + MARKET_DURATION_SECS - now > self.cfg().place_order_before_mins * 60
                && self.cfg().signal.mid_market_enabled
                && current_period + MARKET_DURATION_SECS - now >= self.cfg().signal.danger_time_passed * 60),
    {
        let time_remaining = (current_period + MARKET_DURATION_SECS) - now;
        let window: i64 = (self.risk.config.place_order_before_mins * 60) as i64;
        let min_remaining: i64 = (self.risk.config.signal.danger_time_passed * 60) as i64;
        time_remaining > window && self.risk.config.signal.mid_market_enabled && time_remaining >= min_remaining
    }

    /// The quote of an entry in the current period given its current Up and
    /// Down prices (see [`spec_mid_market_quote`]).
    pub fn plan_mid_market(&self, up_price: i64, down_price: i64) -> (q: Option<Quote>)
        requires
            self.wf(),
            0 <= up_price <= SCALE,
            0 <= down_price <= SCALE,
        ensures
            q == spec_mid_market_quote(self.cfg(), self.risk.spec_bankroll(), up_price as int, down_price as int),
    {
        let (u, d) = if up_price <= down_price {
            (round_price(up_price), round_price(MID_MARKET_PAIR_TARGET - up_price))
        } else {
            (round_price(MID_MARKET_PAIR_TARGET - down_price), round_price(down_price))
        };
        if u + d > MAX_STRADDLE_COST {
            return None;
        }
        let up_size = self.risk.calculate_kelly_size(MID_MARKET_P, u);
        let down_size = self.risk.calculate_kelly_size(MID_MARKET_P, d);
        let shares = shares_to_use(up_size, down_size, self.risk.config.shares);
        Some(Quote { up_price: u, down_price: d, shares })
    }
}

/// The danger sale's limit price (see [`spec_danger_limit`]).
pub fn danger_limit_price(bid: i64) -> (p: i64)
    requires
        0 <= bid <= SCALE,
    ensures
        p == spec_danger_limit(bid as int),
        DANGER_SELL_FLOOR <= p <= SCALE,
{
    if bid > 0 {
        let p = bid * 4 / 5;
        if p >= DANGER_SELL_FLOOR { p } else { DANGER_SELL_FLOOR }
    } else {
        DANGER_SELL_FLOOR
    }
}

/// The share count of a quote from the two Kelly sizes (see
/// [`spec_shares_to_use`]).
pub fn shares_to_use(up_size: i128, down_size: i128, shares: i64) -> (n: i64)
    requires
        0 <= shares <= MAX_AMOUNT / 5,
    ensures
        n == spec_shares_to_use(up_size as int, down_size as int, shares as int),
        SCALE <= n <= MAX_AMOUNT,
{
    let m = if up_size >= down_size { up_size } else { down_size };
    let cap: i128 = 5 * (shares as i128);
    let capped = if m <= cap { m } else { cap };
    if capped >= SCALE as i128 { capped as i64 } else { SCALE }
}

/// The loss realised by selling `shares` bought at `purchase_price` at
/// `sell_price`: `(purchase_price - sell_price) * shares`.
pub fn sale_loss(purchase_price: i64, sell_price: i64, shares: i64) -> (l: i64)
    requires
        0 <= purchase_price <= SCALE,
        0 <= sell_price <= SCALE,
        -MAX_AMOUNT <= shares <= MAX_AMOUNT,
    ensures
        l == spec_value_of(shares as int, purchase_price - sell_price),
{
    value_of(shares, purchase_price - sell_price)
}

/// What placing a limit order amounts to.
pub enum OrderPlacement {
    /// In simulation: the order is not sent; this is its made-up answer.
    Simulated(OrderResponse),
    /// Live: this order is sent to the exchange.
    Submit(OrderRequest),
}

/// The order sent for a limit order: the price rounded to a cent, size and
/// price written as decimal numbers.
pub open spec fn spec_limit_order(token_id: Seq<char>, side: Seq<char>, price: int, shares: int, o: OrderRequest) -> bool {
    &&& o.token_id@ == token_id
    &&& o.side@ == side
    &&& o.size@ == text::fixed_repr(shares)
    &&& o.price@ == text::fixed_repr(spec_round_price(price))
    &&& o.order_type@ == "LIMIT"@
}

/// The id of a simulated order placed at time `ts`: `SIM-{side}-{ts}`.
pub open spec fn simulated_id(side: Seq<char>, ts: int) -> Seq<char> {
    "SIM-"@ + side + "-"@ + text::dec_int(ts)
}

/// The limit order to send (see [`spec_limit_order`]).
pub fn limit_order_request(token_id: &str, side: &str, price: i64, shares: i64) -> (o: OrderRequest)
    ensures
        spec_limit_order(token_id@, side@, price as int, shares as int, o),
{
    let p = round_price(price);
    OrderRequest {
        token_id: token_id.to_string(),
        side: side.to_string(),
        size: text::format_micros(shares),
        price: text::format_micros(p),
        order_type: "LIMIT".to_string(),
    }
}

/// The answer recorded for a simulated order placed at time `ts`.
pub fn simulated_order_response(side: &str, ts: i64) -> (r: OrderResponse)
    ensures
        r.order_id matches Some(id) && id@ == simulated_id(side@, ts as int),
        r.status@ == "SIMULATED"@,
        r.message is None,
{
    let mut id = "SIM-".to_string();
    id.append(side);
    id.append("-");
    text::push_chars(&mut id, &text::dec_i64(ts));
    OrderResponse { order_id: Some(id), status: "SIMULATED".to_string(), message: None }
}

impl MarketProcessor {
    /// Places a limit order: in simulation, a made-up answer stamped with
    /// the current time; live, the order to send.
    pub fn place_limit_order(&self, token_id: &str, side: &str, price: i64, shares: i64) -> (r: OrderPlacement)
        ensures
            self.cfg().simulation_mode ==> (r matches OrderPlacement::Simulated(resp) && resp.status@ == "SIMULATED"@
                && resp.message is None
                && (resp.order_id matches Some(id) && exists|ts: i64| ts >= 0 && id@ == simulated_id(side@, ts as int))),
            !self.cfg().simulation_mode ==> (r matches OrderPlacement::Submit(o)
                && spec_limit_order(token_id@, side@, price as int, shares as int, o)),
    {
        if self.risk.config.simulation_mode {
            let ts = crate::discovery::get_current_time_et();
            OrderPlacement::Simulated(simulated_order_response(side, ts))
        } else {
            OrderPlacement::Submit(limit_order_request(token_id, side, price, shares))
        }
    }

    /// The Up and Down shares held by the state of `asset`, zero when it has
    /// none.
    pub fn inventory(states: &KeyedVec<PreLimitOrderState>, asset: &str) -> (r: (i64, i64))
        requires
            states.wf(),
        ensures
            r == (if states@.dom().contains(asset@) {
                (states@[asset@].up_shares, states@[asset@].down_shares)
            } else {
                (0i64, 0i64)
            }),
    {
        match states.get(asset) {
            Some(s) => (s.up_shares, s.down_shares),
            None => (0, 0),
        }
    }
}

/// A listed market can be traded: it is active and not closed.
pub fn is_tradeable(market: &Market) -> (r: bool)
    ensures
        r == (market.active && !market.closed),
{
    market.active && !market.closed
}

/// The seconds left, never negative, in the period starting at
/// `period_start`, as the market snapshot reports them.
pub fn snapshot_time_remaining(period_start: i64, now: i64) -> (r: i64)
    requires
        is_time(period_start),
        is_time(now),
    ensures
        r == (if period_start + MARKET_DURATION_SECS - now > 0 { period_start + MARKET_DURATION_SECS - now } else { 0 }),
{
    let left = period_start + MARKET_DURATION_SECS - now;
    if left > 0 { left } else { 0 }
}

} // verus!
