//! Risk management: position sizing, inventory skew, fill detection and the
//! spot-price kill switch.
use vstd::prelude::*;
use crate::config::{StrategyConfig, MAX_KELLY_FRACTION};
use crate::signals;
use crate::state::{PreLimitOrderState, CycleStatus};
use crate::text;
use crate::units::{SCALE, MAX_AMOUNT, trunc_div};

verus! {

/// A fill is inferred when the price is within 0.001 of the limit.
pub const MATCH_TOLERANCE: i64 = 1_000;

/// The spot move (0.5%) that makes a resting order toxic.
pub const TOXIC_MOVE_PER_200: i64 = 1;

/// Sizing and fill bookkeeping for the strategy, with the bankroll that
/// realised profit and loss moves.
pub struct RiskManager {
    pub config: StrategyConfig,
    pub bankroll: i64,
}

/// How fills of an order pair are to be found out.
#[derive(PartialEq, Eq, Structural, Clone, Copy, Debug)]
pub enum FillCheck {
    /// The market has not started: nothing can have filled.
    NotStarted,
    /// Ask the exchange whether each order filled.
    ViaApi,
    /// Infer fills from current prices against the limits.
    ViaPrice,
}

/// The direction of a hedge on the perpetual market.
#[derive(PartialEq, Eq, Structural, Clone, Copy, Debug)]
pub enum HedgeDirection {
    /// Covers a held Up leg.
    Short,
    /// Covers a held Down leg.
    Long,
}

/// What the kill switch asks of the exchange and of the hedger.
pub struct SafetyActions {
    /// Close the hedge for this many shares (both legs).
    pub close_hedge: Option<i64>,
    /// Cancel this resting Up order.
    pub cancel_up: Option<String>,
    /// Cancel this resting Down order.
    pub cancel_down: Option<String>,
    /// Open a hedge in this direction for this many shares.
    pub open_hedge: Option<(HedgeDirection, i64)>,
}

/// The Kelly fraction's order size in shares (micros): with win probability
/// `p` and price `c`, `f* = (p - c) / (1 - c)`, and the order spends
/// `bankroll * k * f*` dollars at price `c`; zero when `c` is not strictly
/// between 0 and 1 or when there is no edge (`p <= c`).
pub open spec fn spec_kelly_size(p: int, c: int, k: int, bankroll: int) -> int {
    if c <= 0 || c >= SCALE {
        0
    } else if p <= c {
        0
    } else {
        trunc_div(bankroll * k * (p - c), (SCALE - c) * c)
    }
}

/// The inventory skew: `gamma` times the Up-minus-Down share imbalance.
pub open spec fn spec_inventory_penalty(gamma: int, up_shares: int, down_shares: int) -> int {
    trunc_div(gamma * (up_shares - down_shares), SCALE as int)
}

/// The share count of a quote: the larger Kelly size, capped at five times
/// the configured shares, and at least one share.
pub open spec fn spec_shares_to_use(up_size: int, down_size: int, shares: int) -> int {
    let m = if up_size >= down_size { up_size } else { down_size };
    let capped = if m <= 5 * shares { m } else { 5 * shares };
    if capped >= SCALE { capped } else { SCALE as int }
}

/// A resting buy at `limit` is taken as filled when the price is at or
/// below the limit, or within [`MATCH_TOLERANCE`] of it.
pub open spec fn hits_limit(price: int, limit: int) -> bool {
    price <= limit || (price - limit < MATCH_TOLERANCE && limit - price < MATCH_TOLERANCE)
}

/// The spot price moved down by more than 0.5% from `p0`: `(b - p0) / p0 < -0.005`.
pub open spec fn dropped_beyond(b: int, p0: int) -> bool {
    if p0 > 0 {
        200 * (b - p0) < -p0
    } else if p0 < 0 {
        200 * (b - p0) > -p0
    } else {
        b < 0
    }
}

/// The spot price moved up by more than 0.5% from `p0`: `(b - p0) / p0 > 0.005`.
pub open spec fn rose_beyond(b: int, p0: int) -> bool {
    if p0 > 0 {
        200 * (b - p0) > p0
    } else if p0 < 0 {
        200 * (b - p0) < p0
    } else {
        b > 0
    }
}

/// The order ids have the shape of simulated orders.
pub open spec fn is_simulated_id(id: Seq<char>) -> bool {
    "SIM-"@.is_prefix_of(id)
}

/// How fills are to be found out: not before the market starts; through the
/// exchange when trading live with two real order ids; from prices else.
pub open spec fn spec_fill_check(sim: bool, s: PreLimitOrderState, now: int) -> FillCheck {
    if now < s.market_period_start {
        FillCheck::NotStarted
    } else if !sim && s.up_order_id is Some && s.down_order_id is Some
        && !is_simulated_id(s.up_order_id.unwrap()@) && !is_simulated_id(s.down_order_id.unwrap()@) {
        FillCheck::ViaApi
    } else {
        FillCheck::ViaPrice
    }
}

/// `s2` is `s1` with the given legs marked filled: a leg that fills and was
/// not yet matched becomes matched holding its order shares; nothing else
/// changes.
pub open spec fn fills_applied(s1: PreLimitOrderState, s2: PreLimitOrderState, up: bool, down: bool) -> bool {
    &&& s2.up_matched == (s1.up_matched || up)
    &&& s2.down_matched == (s1.down_matched || down)
    &&& s2.up_shares == (if up && !s1.up_matched { s1.up_order_shares } else { s1.up_shares })
    &&& s2.down_shares == (if down && !s1.down_matched { s1.down_order_shares } else { s1.down_shares })
    &&& s2 == PreLimitOrderState {
        up_matched: s2.up_matched,
        down_matched: s2.down_matched,
        up_shares: s2.up_shares,
        down_shares: s2.down_shares,
        ..s1
    }
}

impl RiskManager {
    /// The bankroll, in micros of a dollar.
    pub open spec fn spec_bankroll(&self) -> int {
        self.bankroll as int
    }

    /// The configuration is well formed and the bankroll stays within the
    /// fixed-point range.
    pub open spec fn wf(&self) -> bool {
        &&& self.config.wf()
        &&& -MAX_AMOUNT <= self.spec_bankroll() <= MAX_AMOUNT
    }

    /// A risk manager whose bankroll starts at the configured one.
    pub fn new(config: StrategyConfig) -> (r: RiskManager)
        requires
            config.wf(),
            -MAX_AMOUNT <= config.bankroll_usdc <= MAX_AMOUNT,
        ensures
            r.config == config,
            r.spec_bankroll() == config.bankroll_usdc,
            r.wf(),
    {
        let b = config.bankroll_usdc;
        RiskManager { config, bankroll: b }
    }

    /// The current bankroll.
    pub fn bankroll(&self) -> (b: i64)
        ensures
            b == self.spec_bankroll(),
    {
        self.bankroll
    }

    /// The price skew for an inventory of `up_shares` and `down_shares`:
    /// `risk_aversion_gamma * (up_shares - down_shares)`.
    pub fn calculate_inventory_penalty(&self, up_shares: i64, down_shares: i64) -> (d: i128)
        requires
            -MAX_AMOUNT <= up_shares <= MAX_AMOUNT,
            -MAX_AMOUNT <= down_shares <= MAX_AMOUNT,
        ensures
            d == spec_inventory_penalty(self.config.risk_aversion_gamma as int, up_shares as int, down_shares as int),
    {
        let g = self.config.risk_aversion_gamma;
        let q: i128 = (up_shares as i128) - (down_shares as i128);
        proof {
            assert(-0x8000_0000_0000_0000 * (2 * MAX_AMOUNT) <= g * q <= 0x8000_0000_0000_0000 * (2 * MAX_AMOUNT)) by (nonlinear_arith)
                requires
                    -0x8000_0000_0000_0000 <= g < 0x8000_0000_0000_0000,
                    -2 * MAX_AMOUNT <= q <= 2 * MAX_AMOUNT,
            ;
        }
        let prod: i128 = (g as i128) * q;
        prod / (SCALE as i128)
    }

    /// The fractional-Kelly order size, in shares (micros), for win
    /// probability `p` at price `c`.
    pub fn calculate_kelly_size(&self, p: i64, c: i64) -> (n: i128)
        requires
            self.wf(),
            0 <= p <= SCALE,
        ensures
            n == spec_kelly_size(p as int, c as int, self.config.kelly_fraction_k as int, self.spec_bankroll()),
    {
        if c <= 0 || c >= SCALE {
            return 0;
        }
        if p <= c {
            return 0;
        }
        let k = self.config.kelly_fraction_k;
        let b = self.bankroll;
        proof {
            assert(-MAX_AMOUNT * MAX_KELLY_FRACTION <= b * k <= MAX_AMOUNT * MAX_KELLY_FRACTION) by (nonlinear_arith)
                requires
                    -MAX_AMOUNT <= b <= MAX_AMOUNT,
                    -MAX_KELLY_FRACTION <= k <= MAX_KELLY_FRACTION,
            ;
            assert(-MAX_AMOUNT * MAX_KELLY_FRACTION * SCALE <= (b * k) * (p - c) <= MAX_AMOUNT * MAX_KELLY_FRACTION * SCALE) by (nonlinear_arith)
                requires
                    -MAX_AMOUNT * MAX_KELLY_FRACTION <= b * k <= MAX_AMOUNT * MAX_KELLY_FRACTION,
                    0 < p - c <= SCALE,
            ;
            assert(0 < (SCALE - c) * c <= SCALE * SCALE) by (nonlinear_arith)
                requires 0 < c < SCALE;
        }
        let num: i128 = (b as i128) * (k as i128) * ((p - c) as i128);
        let den: i128 = ((SCALE - c) as i128) * (c as i128);
        num / den
    }

    /// The danger signal of the configuration for a price.
    pub fn is_danger_signal(&self, price: i64) -> (r: bool)
        ensures
            r == (price <= self.config.signal.danger_price),
    {
        signals::is_danger_signal(&self.config.signal, price)
    }

    /// Moves the bankroll by a realised profit (or loss).
    pub fn record_pnl(&mut self, pnl: i64)
        requires
            old(self).wf(),
            -MAX_AMOUNT <= old(self).spec_bankroll() + pnl <= MAX_AMOUNT,
        ensures
            final(self).spec_bankroll() == old(self).spec_bankroll() + pnl,
            final(self).config == old(self).config,
            final(self).wf(),
    {
        self.bankroll = self.bankroll + pnl;
    }

    /// How the fills of `s` are to be found out at time `now`.
    pub fn fill_check_mode(&self, s: &PreLimitOrderState, now: i64) -> (r: FillCheck)
        ensures
            r == spec_fill_check(self.config.simulation_mode, *s, now as int),
    {
        if now < s.market_period_start {
            return FillCheck::NotStarted;
        }
        if !self.config.simulation_mode {
            match (&s.up_order_id, &s.down_order_id) {
                (Some(up_id), Some(down_id)) => {
                    let up_sim = text::str_starts_with(up_id.as_str(), "SIM-");
                    let down_sim = text::str_starts_with(down_id.as_str(), "SIM-");
                    if !up_sim && !down_sim {
                        return FillCheck::ViaApi;
                    }
                },
                _ => {},
            }
        }
        FillCheck::ViaPrice
    }
}

/// Records the exchange's answer on which orders filled.
pub fn apply_api_fills(s: &mut PreLimitOrderState, up_filled: bool, down_filled: bool)
    ensures
        fills_applied(*old(s), *final(s), up_filled, down_filled),
{
    if up_filled && !s.up_matched {
        s.up_matched = true;
        s.up_shares = s.up_order_shares;
    }
    if down_filled && !s.down_matched {
        s.down_matched = true;
        s.down_shares = s.down_order_shares;
    }
}

/// Whether a price reaches a buy limit (see [`hits_limit`]).
pub fn price_hits_limit(price: i64, limit: i64) -> (r: bool)
    ensures
        r == hits_limit(price as int, limit as int),
{
    let d: i128 = (price as i128) - (limit as i128);
    price <= limit || (d < MATCH_TOLERANCE as i128 && -d < MATCH_TOLERANCE as i128)
}

/// Infers fills from the current sell prices of the two tokens (`None` when
/// a price could not be read). Returns which legs became matched now.
pub fn apply_price_fills(s: &mut PreLimitOrderState, up_price: Option<i64>, down_price: Option<i64>) -> (r: (bool, bool))
    ensures
        r.0 == (!old(s).up_matched && up_price is Some && hits_limit(up_price.unwrap() as int, old(s).up_order_price as int)),
        r.1 == (!old(s).down_matched && down_price is Some && hits_limit(down_price.unwrap() as int, old(s).down_order_price as int)),
        fills_applied(*old(s), *final(s), r.0, r.1),
{
    let mut up_new = false;
    let mut down_new = false;
    if let Some(p) = up_price {
        if price_hits_limit(p, s.up_order_price) && !s.up_matched {
            up_new = true;
        }
    }
    if let Some(p) = down_price {
        if price_hits_limit(p, s.down_order_price) && !s.down_matched {
            down_new = true;
        }
    }
    apply_api_fills(s, up_new, down_new);
    (up_new, down_new)
}

/// Whether the spot price fell more than 0.5% below `p0`.
pub fn spot_dropped(b: i64, p0: i64) -> (r: bool)
    ensures
        r == dropped_beyond(b as int, p0 as int),
{
    let d: i128 = 200 * ((b as i128) - (p0 as i128));
    if p0 > 0 {
        d < -(p0 as i128)
    } else if p0 < 0 {
        d > -(p0 as i128)
    } else {
        b < 0
    }
}

/// Whether the spot price rose more than 0.5% above `p0`.
pub fn spot_rose(b: i64, p0: i64) -> (r: bool)
    ensures
        r == rose_beyond(b as int, p0 as int),
{
    let d: i128 = 200 * ((b as i128) - (p0 as i128));
    if p0 > 0 {
        d > p0 as i128
    } else if p0 < 0 {
        d < p0 as i128
    } else {
        b > 0
    }
}

/// The kill switch's toxic-order condition on one leg: that leg is not
/// matched, has a resting order, and the spot moved against it.
pub open spec fn toxic_up(s: PreLimitOrderState, spot: Option<i64>) -> bool {
    &&& !s.up_matched
    &&& s.up_order_id is Some
    &&& spot is Some
    &&& s.binance_price_at_placement is Some
    &&& dropped_beyond(spot.unwrap() as int, s.binance_price_at_placement.unwrap() as int)
}

/// See [`toxic_up`].
pub open spec fn toxic_down(s: PreLimitOrderState, spot: Option<i64>) -> bool {
    &&& !s.down_matched
    &&& s.down_order_id is Some
    &&& spot is Some
    &&& s.binance_price_at_placement is Some
    &&& rose_beyond(spot.unwrap() as int, s.binance_price_at_placement.unwrap() as int)
}

impl RiskManager {
    /// The kill switch and hedging step for the current spot price `spot`.
    ///
    /// A position already sold or merged only closes its hedge (for the
    /// shares held, if any). Otherwise a resting order whose side the spot
    /// moved against by more than 0.5% is dropped (and cancelled on the
    /// exchange when trading live); then a lone matched leg with the other
    /// order still resting gets a hedge once, and a formed straddle closes
    /// its hedge once.
    pub fn check_oracle_safety(&self, s: &mut PreLimitOrderState, spot: Option<i64>) -> (a: SafetyActions)
        requires
            -MAX_AMOUNT <= old(s).up_shares <= MAX_AMOUNT,
            -MAX_AMOUNT <= old(s).down_shares <= MAX_AMOUNT,
        ensures
            old(s).risk_sold || old(s).merged ==> {
                &&& *final(s) == *old(s)
                &&& a.close_hedge == (if old(s).up_shares + old(s).down_shares > 0 {
                        Some((old(s).up_shares + old(s).down_shares) as i64)
                    } else {
                        None::<i64>
                    })
                &&& a.cancel_up is None && a.cancel_down is None && a.open_hedge is None
            },
            !old(s).risk_sold && !old(s).merged ==> {
                let t_up = toxic_up(*old(s), spot);
                let t_down = toxic_down(*old(s), spot);
                let mid = PreLimitOrderState {
                    up_order_id: if t_up { None } else { old(s).up_order_id },
                    down_order_id: if t_down { None } else { old(s).down_order_id },
                    ..*old(s)
                };
                &&& a.cancel_up == (if t_up && !self.config.simulation_mode { old(s).up_order_id } else { None })
                &&& a.cancel_down == (if t_down && !self.config.simulation_mode { old(s).down_order_id } else { None })
                &&& if mid.up_matched && !mid.down_matched && mid.down_order_id is Some {
                    &&& a.open_hedge == (if !mid.up_hedged { Some((HedgeDirection::Short, mid.up_shares)) } else { None })
                    &&& a.close_hedge is None
                    &&& *final(s) == PreLimitOrderState { up_hedged: true, ..mid }
                } else if mid.down_matched && !mid.up_matched && mid.up_order_id is Some {
                    &&& a.open_hedge == (if !mid.down_hedged { Some((HedgeDirection::Long, mid.down_shares)) } else { None })
                    &&& a.close_hedge is None
                    &&& *final(s) == PreLimitOrderState { down_hedged: true, ..mid }
                } else if mid.up_matched && mid.down_matched {
                    &&& a.open_hedge is None
                    &&& a.close_hedge == (if !mid.both_hedged { Some((mid.up_shares + mid.down_shares) as i64) } else { None })
                    &&& *final(s) == PreLimitOrderState { both_hedged: true, ..mid }
                } else {
                    &&& a.open_hedge is None
                    &&& a.close_hedge is None
                    &&& *final(s) == mid
                }
            },
    {
        if s.risk_sold || s.merged {
            let total = s.up_shares + s.down_shares;
            let close = if total > 0 { Some(total) } else { None };
            return SafetyActions { close_hedge: close, cancel_up: None, cancel_down: None, open_hedge: None };
        }
        let mut cancel_up: Option<String> = None;
        let mut cancel_down: Option<String> = None;
        if let Some(b) = spot {
            if let Some(p0) = s.binance_price_at_placement {
                if !s.up_matched && spot_dropped(b, p0) {
                    if s.up_order_id.is_some() {
                        let id = s.up_order_id.take();
                        if !self.config.simulation_mode {
                            cancel_up = id;
                        }
                    }
                }
                if !s.down_matched && spot_rose(b, p0) {
                    if s.down_order_id.is_some() {
                        let id = s.down_order_id.take();
                        if !self.config.simulation_mode {
                            cancel_down = id;
                        }
                    }
                }
            }
        }
        let mut open_hedge: Option<(HedgeDirection, i64)> = None;
        let mut close_hedge: Option<i64> = None;
        if s.up_matched && !s.down_matched && s.down_order_id.is_some() {
            if !s.up_hedged {
                open_hedge = Some((HedgeDirection::Short, s.up_shares));
                s.up_hedged = true;
            }
        } else if s.down_matched && !s.up_matched && s.up_order_id.is_some() {
            if !s.down_hedged {
                open_hedge = Some((HedgeDirection::Long, s.down_shares));
                s.down_hedged = true;
            }
        } else if s.up_matched && s.down_matched {
            if !s.both_hedged {
                close_hedge = Some(s.up_shares + s.down_shares);
                s.both_hedged = true;
            }
        }
        SafetyActions { close_hedge, cancel_up, cancel_down, open_hedge }
    }
}

impl RiskManager {
    /// The placement signal of a market snapshot (Up price, Down price,
    /// seconds left): `Unknown` when the market could not be read.
    pub fn get_place_signal(&self, snapshot: Option<(i64, i64, i64)>) -> (r: signals::MarketSignal)
        requires
            self.wf(),
        ensures
            r == (match snapshot {
                Some((u, d, t)) => signals::spec_place_signal(self.config.signal, u as int, d as int, t as int),
                None => signals::MarketSignal::Unknown,
            }),
    {
        match snapshot {
            Some((u, d, t)) => signals::evaluate_place_signal(&self.config.signal, u, d, t),
            None => signals::MarketSignal::Unknown,
        }
    }
}

} // verus!
