//! Properties of the strategy that span its functions.
use vstd::prelude::*;
use crate::closure::{leg_won, spec_due, spec_settlement, Ledger};
use crate::config::StrategyConfig;
use crate::discovery::{spec_15m_slug, spec_period_start};
use crate::models::MarketToken;
use crate::processor::{
    spec_danger_limit, spec_mid_market_quote, spec_preorder_quote, DANGER_SELL_FLOOR, MAX_STRADDLE_COST,
    spec_preorder_decision, spec_should_seek_preorders, spec_handover, spec_holding_both, holds_intact_straddle,
    loser_sale_fires, PreorderDecision,
};
use crate::state::CycleStatus;
use crate::processor::{spec_should_sell_early, RiskMode, PREORDER_P_UP, PREORDER_P_DOWN};
use crate::strategy::{spec_commit_states, spec_commit_positions};
use crate::risk::{spec_inventory_penalty, spec_kelly_size, spec_shares_to_use, fills_applied};
use crate::signals::{spec_place_signal, is_clearing, MarketSignal};
use crate::state::{CycleTrade, PreLimitOrderState};
use crate::text::{dec_nat, dec_int, digit_char};
use crate::units::{
    spec_round_price, spec_value_of, trunc_div, MAX_AMOUNT, MAX_ORDER_PRICE, MIN_ORDER_PRICE, SCALE, TICK,
};

verus! {

/// Every order price is a whole cent within `[0.01, 0.99]`, and rounding
/// an order price again leaves it unchanged.
pub proof fn law_round_price_idempotent(p: int)
    ensures
        MIN_ORDER_PRICE <= spec_round_price(p) <= MAX_ORDER_PRICE,
        spec_round_price(p) % (TICK as int) == 0,
        spec_round_price(spec_round_price(p)) == spec_round_price(p),
{
    let r = spec_round_price(p);
    let c = r / 10_000;
    assert(r == c * 10_000) by {
        if p >= 0 {
            assert((p + 5_000) / 10_000 * 10_000 % 10_000 == 0) by (nonlinear_arith);
        } else {
            assert(-((-p + 5_000) / 10_000) * 10_000 % 10_000 == 0) by (nonlinear_arith);
        }
    }
    assert((r + 5_000) / 10_000 == c) by (nonlinear_arith)
        requires r == c * 10_000, c >= 1;
}

/// Rounding keeps order: a higher price never rounds to a lower one.
pub proof fn law_round_price_monotone(p: int, q: int)
    requires
        p <= q,
    ensures
        spec_round_price(p) <= spec_round_price(q),
{
    assert(crate::units::cents_rounded(p) <= crate::units::cents_rounded(q)) by {
        if p >= 0 {
            assert((p + 5_000) / 10_000 <= (q + 5_000) / 10_000) by (nonlinear_arith)
                requires p <= q, p >= 0;
        } else if q >= 0 {
            assert(-((-p + 5_000) / 10_000) <= 0);
        } else {
            assert((-q + 5_000) / 10_000 <= (-p + 5_000) / 10_000) by (nonlinear_arith)
                requires p <= q, q < 0;
        }
    }
    let cp = crate::units::cents_rounded(p);
    let cq = crate::units::cents_rounded(q);
    assert(cp * 10_000 <= cq * 10_000) by (nonlinear_arith)
        requires cp <= cq;
}

/// Any quote either planner produces costs at most 0.94 for the pair, and
/// its prices are whole cents within `[0.01, 0.99]`.
pub proof fn law_quotes_respect_cost_cap(cfg: StrategyConfig, bankroll: int, a: int, b: int)
    ensures
        spec_preorder_quote(cfg, bankroll, a, b) matches Some(q) ==> {
            &&& q.up_price + q.down_price <= MAX_STRADDLE_COST
            &&& MIN_ORDER_PRICE <= q.up_price <= MAX_ORDER_PRICE
            &&& MIN_ORDER_PRICE <= q.down_price <= MAX_ORDER_PRICE
        },
        spec_mid_market_quote(cfg, bankroll, a, b) matches Some(q) ==> {
            &&& q.up_price + q.down_price <= MAX_STRADDLE_COST
            &&& MIN_ORDER_PRICE <= q.up_price <= MAX_ORDER_PRICE
            &&& MIN_ORDER_PRICE <= q.down_price <= MAX_ORDER_PRICE
        },
{
    let delta = spec_inventory_penalty(cfg.risk_aversion_gamma as int, a, b);
    law_round_price_idempotent(cfg.price_limit - delta);
    law_round_price_idempotent(cfg.price_limit + delta);
    law_round_price_idempotent(a);
    law_round_price_idempotent(b);
    law_round_price_idempotent(crate::processor::MID_MARKET_PAIR_TARGET - a);
    law_round_price_idempotent(crate::processor::MID_MARKET_PAIR_TARGET - b);
}

/// A straddle of equal share counts held to a resolution that names a
/// winner settles at a profit of at least its shares times a dollar less
/// the pair's price, since one leg pays a dollar per share: bought below a
/// dollar for the pair, it cannot lose.
pub proof fn law_straddle_profit(t: CycleTrade, tokens: Seq<MarketToken>)
    requires
        t.wf(),
        t.up_shares == t.down_shares,
        leg_won(tokens, t.up_token_id) || leg_won(tokens, t.down_token_id),
    ensures
        spec_settlement(t, tokens).pnl * SCALE >= (SCALE - t.up_avg_price - t.down_avg_price) * t.up_shares,
        t.up_avg_price + t.down_avg_price <= SCALE ==> spec_settlement(t, tokens).pnl >= 0,
{
    let n = t.up_shares as int;
    let u = t.up_avg_price as int;
    let d = t.down_avg_price as int;
    let vu = spec_value_of(n, u);
    let vd = spec_value_of(n, d);
    assert(0 <= n * u);
    assert(0 <= n * d);
    assert(vu * SCALE <= n * u) by (nonlinear_arith)
        requires vu == (n * u) / (SCALE as int), n * u >= 0;
    assert(vd * SCALE <= n * d) by (nonlinear_arith)
        requires vd == (n * d) / (SCALE as int), n * d >= 0;
    assert(0 <= vu <= MAX_AMOUNT) by (nonlinear_arith)
        requires vu == (n * u) / (SCALE as int), 0 <= n <= MAX_AMOUNT, 0 <= u <= SCALE;
    assert(0 <= vd <= MAX_AMOUNT) by (nonlinear_arith)
        requires vd == (n * d) / (SCALE as int), 0 <= n <= MAX_AMOUNT, 0 <= d <= SCALE;
    assert((SCALE - u - d) * n == n * SCALE - n * u - n * d) by (nonlinear_arith);
    let pnl = spec_settlement(t, tokens).pnl as int;
    assert(pnl == n - vu - vd);
    if u + d <= SCALE {
        assert(n * u + n * d <= n * SCALE) by (nonlinear_arith)
            requires u + d <= SCALE, n >= 0;
        assert(pnl * SCALE >= 0);
        assert(pnl >= 0) by (nonlinear_arith)
            requires pnl * SCALE >= 0;
    }
}

/// The position left after selling the loser settles at no loss when its
/// leg wins: the payout of a dollar per share covers its price.
pub proof fn law_winner_position_profit(t: CycleTrade, tokens: Seq<MarketToken>)
    requires
        t.wf(),
        t.down_shares == 0,
        t.down_avg_price == 0,
        leg_won(tokens, t.up_token_id),
    ensures
        spec_settlement(t, tokens).pnl >= 0,
{
    let n = t.up_shares as int;
    let u = t.up_avg_price as int;
    assert((n * u) / (SCALE as int) <= n) by (nonlinear_arith)
        requires 0 <= n, 0 <= u <= SCALE;
    assert(0 <= (n * u) / (SCALE as int)) by (nonlinear_arith)
        requires 0 <= n, 0 <= u;
}

/// Kelly sizing stakes nothing without an edge or at a price outside
/// `(0, 1)`, never stakes a negative amount from a non-negative bankroll,
/// and stakes no less from a larger bankroll.
pub proof fn law_kelly_size(p: int, c: int, k: int, b1: int, b2: int)
    requires
        0 <= k,
        0 <= b1 <= b2,
    ensures
        (p <= c || c <= 0 || c >= SCALE) ==> spec_kelly_size(p, c, k, b1) == 0,
        0 <= spec_kelly_size(p, c, k, b1) <= spec_kelly_size(p, c, k, b2),
{
    if !(c <= 0 || c >= SCALE || p <= c) {
        let den = (SCALE - c) * c;
        assert(den > 0) by (nonlinear_arith)
            requires den == (SCALE - c) * c, 0 < c < SCALE;
        assert(0 <= b1 * k * (p - c) <= b2 * k * (p - c)) by (nonlinear_arith)
            requires 0 <= b1 <= b2, 0 <= k, p > c;
        assert((b1 * k * (p - c)) / den <= (b2 * k * (p - c)) / den) by (nonlinear_arith)
            requires 0 <= b1 * k * (p - c) <= b2 * k * (p - c), den > 0;
        assert(0 <= (b1 * k * (p - c)) / den) by (nonlinear_arith)
            requires 0 <= b1 * k * (p - c), den > 0;
    }
}

/// The inventory skew is symmetric: swapping the Up and Down inventories
/// flips its sign, and a balanced inventory skews no quote.
pub proof fn law_inventory_penalty_antisymmetric(gamma: int, up: int, down: int)
    ensures
        spec_inventory_penalty(gamma, up, down) == -spec_inventory_penalty(gamma, down, up),
        spec_inventory_penalty(gamma, up, up) == 0,
{
    assert(gamma * (up - down) == -(gamma * (down - up))) by (nonlinear_arith);
}

/// A matched leg stays matched, and its held shares stay put, whatever the
/// exchange reports next.
pub proof fn law_fills_monotone(s1: PreLimitOrderState, s2: PreLimitOrderState, up: bool, down: bool)
    requires
        fills_applied(s1, s2, up, down),
    ensures
        s1.up_matched ==> s2.up_matched && s2.up_shares == s1.up_shares,
        s1.down_matched ==> s2.down_matched && s2.down_shares == s1.down_shares,
        s2.up_order_price == s1.up_order_price && s2.down_order_price == s1.down_order_price,
        s2.merged == s1.merged && s2.risk_sold == s1.risk_sold && s2.status == s1.status,
{
}

/// A danger sale never sells below 0.05, and never above the bid once the
/// bid is at least 0.0625.
pub proof fn law_danger_limit_floor(bid: int)
    ensures
        spec_danger_limit(bid) >= DANGER_SELL_FLOOR,
        bid >= 62_500 ==> spec_danger_limit(bid) <= bid,
{
    if bid > 0 {
        assert(bid * 4 / 5 <= bid) by (nonlinear_arith)
            requires bid > 0;
    }
}

/// The period start of a non-negative time is a multiple of 900 seconds at
/// or before it, less than 900 seconds before it, and is its own period
/// start.
pub proof fn law_period_start(t: int)
    requires
        t >= 0,
    ensures
        spec_period_start(t) % 900 == 0,
        spec_period_start(t) <= t < spec_period_start(t) + 900,
        spec_period_start(spec_period_start(t)) == spec_period_start(t),
{
    let q = t / 900;
    assert(q * 900 <= t < q * 900 + 900) by (nonlinear_arith)
        requires q == t / 900, t >= 0;
    assert(q * 900 % 900 == 0) by (nonlinear_arith);
    assert(q >= 0) by (nonlinear_arith)
        requires q == t / 900, t >= 0;
    assert((q * 900) / 900 == q) by (nonlinear_arith);
}

/// With signals disabled orders are always allowed; a `Good` signal never
/// comes while the market is clearing.
pub proof fn law_signal(cfg: crate::config::SignalConfig, up: int, down: int, time_remaining: int)
    ensures
        !cfg.enabled ==> spec_place_signal(cfg, up, down, time_remaining) == MarketSignal::Good,
        cfg.enabled && spec_place_signal(cfg, up, down, time_remaining) == MarketSignal::Good
            ==> !is_clearing(cfg, up, down, time_remaining),
{
}

proof fn lemma_digit_char_injective(a: int, b: int)
    requires
        0 <= a < 10,
        0 <= b < 10,
        digit_char(a) == digit_char(b),
    ensures
        a == b,
{
}

proof fn lemma_dec_nat_len(n: nat)
    ensures
        dec_nat(n).len() >= 1,
        n >= 10 ==> dec_nat(n).len() >= 2,
    decreases n,
{
    if n >= 10 {
        lemma_dec_nat_len(n / 10);
    }
}

proof fn lemma_dec_nat_injective(a: nat, b: nat)
    requires
        dec_nat(a) == dec_nat(b),
    ensures
        a == b,
    decreases a,
{
    lemma_dec_nat_len(a);
    lemma_dec_nat_len(b);
    if a < 10 && b < 10 {
        assert(dec_nat(a) == seq![digit_char(a as int)]);
        assert(dec_nat(b) == seq![digit_char(b as int)]);
        assert(dec_nat(a)[0] == dec_nat(b)[0]);
        assert(seq![digit_char(a as int)][0] == digit_char(a as int));
        assert(seq![digit_char(b as int)][0] == digit_char(b as int));
        lemma_digit_char_injective(a as int, b as int);
    } else if a >= 10 && b >= 10 {
        let da = dec_nat(a / 10);
        let db = dec_nat(b / 10);
        assert(dec_nat(a).drop_last() =~= da);
        assert(dec_nat(b).drop_last() =~= db);
        lemma_dec_nat_injective(a / 10, b / 10);
        assert(dec_nat(a).last() == digit_char((a % 10) as int));
        assert(dec_nat(b).last() == digit_char((b % 10) as int));
        lemma_digit_char_injective((a % 10) as int, (b % 10) as int);
    }
}

/// Distinct period starts give distinct 15-minute market slugs for the same
/// ticker.
pub proof fn law_15m_slug_injective(ticker: Seq<char>, t1: int, t2: int)
    requires
        spec_15m_slug(ticker, t1) == spec_15m_slug(ticker, t2),
    ensures
        t1 == t2,
{
    let prefix = crate::text::str_lowercase(ticker) + "-updown-15m-"@;
    let s1 = dec_int(t1);
    let s2 = dec_int(t2);
    assert((prefix + s1).subrange(prefix.len() as int, (prefix + s1).len() as int) =~= s1);
    assert((prefix + s2).subrange(prefix.len() as int, (prefix + s2).len() as int) =~= s2);
    assert(s1 == s2);
    if t1 < 0 && t2 < 0 {
        assert(s1.drop_first() =~= dec_nat((-t1) as nat));
        assert(s2.drop_first() =~= dec_nat((-t2) as nat));
        lemma_dec_nat_injective((-t1) as nat, (-t2) as nat);
    } else if t1 >= 0 && t2 >= 0 {
        lemma_dec_nat_injective(t1 as nat, t2 as nat);
    } else if t1 < 0 {
        lemma_dec_nat_len(t2 as nat);
        lemma_first_digit(t2 as nat);
        assert(s1[0] == '-');
    } else {
        lemma_dec_nat_len(t1 as nat);
        lemma_first_digit(t1 as nat);
        assert(s2[0] == '-');
    }
}

proof fn lemma_first_digit(n: nat)
    ensures
        dec_nat(n).len() >= 1,
        dec_nat(n)[0] != '-',
    decreases n,
{
    lemma_dec_nat_len(n);
    if n >= 10 {
        lemma_first_digit(n / 10);
        assert(dec_nat(n)[0] == dec_nat(n / 10)[0]);
    }
}

proof fn lemma_round_price_lower(x: int)
    ensures
        spec_round_price(x) >= MIN_ORDER_PRICE,
        spec_round_price(x) == MAX_ORDER_PRICE || spec_round_price(x) >= x - 5_000,
{
    if x >= 0 {
        let c = (x + 5_000) / 10_000;
        assert(c * 10_000 > x - 5_000) by (nonlinear_arith)
            requires c == (x + 5_000) / 10_000, x >= 0;
    }
}

/// A mid-period entry never passes the straddle cost cap: its two prices
/// round the current price and `0.98` minus it, which together cost at
/// least 0.97, so no such entry is ever placed.
pub proof fn law_mid_market_never_quotes(cfg: StrategyConfig, bankroll: int, up: int, down: int)
    ensures
        spec_mid_market_quote(cfg, bankroll, up, down) is None,
{
    let t = crate::processor::MID_MARKET_PAIR_TARGET as int;
    lemma_round_price_lower(up);
    lemma_round_price_lower(down);
    lemma_round_price_lower(t - up);
    lemma_round_price_lower(t - down);
}

/// The bot's promise: a pre-order pair placed at the planned quote that
/// fills on both sides and is held to a resolution naming a winner settles
/// at a profit of at least 6% of its shares.
pub proof fn law_preorder_straddle_profit(
    cfg: StrategyConfig,
    bankroll: int,
    up_inv: int,
    down_inv: int,
    t: CycleTrade,
    tokens: Seq<MarketToken>,
)
    requires
        cfg.wf(),
        spec_preorder_quote(cfg, bankroll, up_inv, down_inv) is Some,
        ({
            let q = spec_preorder_quote(cfg, bankroll, up_inv, down_inv).unwrap();
            &&& t.up_avg_price == q.up_price && t.down_avg_price == q.down_price
            &&& t.up_shares == q.shares && t.down_shares == q.shares
        }),
        leg_won(tokens, t.up_token_id) || leg_won(tokens, t.down_token_id),
    ensures
        spec_settlement(t, tokens).pnl * SCALE >= (SCALE - MAX_STRADDLE_COST) * t.up_shares,
        t.up_shares >= SCALE,
{
    law_quotes_respect_cost_cap(cfg, bankroll, up_inv, down_inv);
    law_straddle_profit(t, tokens);
    let n = t.up_shares as int;
    assert((SCALE - t.up_avg_price - t.down_avg_price) * n >= (SCALE - MAX_STRADDLE_COST) * n) by (nonlinear_arith)
        requires t.up_avg_price + t.down_avg_price <= MAX_STRADDLE_COST, n >= 0;
}

/// A resolved condition is settled once: once a settlement of condition
/// `c` under `key` is booked, neither `key` nor any other position of `c`
/// is ever due for settlement again, whatever the time.
pub proof fn law_settled_once(before: Ledger, after: Ledger, key: Seq<char>, c: Seq<char>)
    requires
        after@ == before@.remove(key),
        after.checked() == before.checked().insert(c),
    ensures
        !after@.dom().contains(key),
        forall|k: Seq<char>, now: u64|
            #![trigger after@.dom().contains(k), spec_due(after@[k], now)]
            after@.dom().contains(k) && after@[k].condition_id@ == c
                ==> !(spec_due(after@[k], now) && !after.checked().contains(after@[k].condition_id@)),
{
}

/// Pre-orders are placed only on a `Good` signal from the current market
/// and only while they are sought; a `Bad` (or `Unknown`) signal skips the
/// next period.
pub proof fn law_preorders_need_good_signal(
    cfg: StrategyConfig,
    bankroll: int,
    state: Option<PreLimitOrderState>,
    signal: MarketSignal,
    up_inv: int,
    down_inv: int,
    current_period: int,
    now: int,
)
    ensures
        spec_preorder_decision(cfg, bankroll, state, signal, up_inv, down_inv, current_period, now) is Place
            ==> signal == MarketSignal::Good && spec_should_seek_preorders(cfg, state, current_period, now),
        signal != MarketSignal::Good
            ==> spec_preorder_decision(cfg, bankroll, state, signal, up_inv, down_inv, current_period, now)
                == PreorderDecision::Hold,
{
}

/// A straddle held intact is never lost: whenever its state leaves, because
/// its market ended or new orders replace it, the position handed over for
/// settlement is that straddle, both legs' order shares at their order
/// prices, under its condition and period.
pub proof fn law_held_straddle_handed_over(s: PreLimitOrderState)
    requires
        holds_intact_straddle(s),
    ensures
        spec_handover(Some(s)) == Some(spec_holding_both(s)),
        spec_holding_both(s).condition_id == s.condition_id,
        spec_holding_both(s).period_timestamp == s.market_period_start as u64,
        spec_holding_both(s).up_shares == s.up_order_shares,
        spec_holding_both(s).down_shares == s.down_order_shares,
        spec_holding_both(s).up_avg_price == s.up_order_price,
        spec_holding_both(s).down_avg_price == s.down_order_price,
{
}

/// The losing leg is sold at most once: once a state is closing its loser,
/// no later tick sells again, whatever the prices and the time.
pub proof fn law_loser_sold_once(cfg: StrategyConfig, s: PreLimitOrderState, up_price: int, down_price: int, now: int)
    requires
        s.status == CycleStatus::ClosingLoser,
    ensures
        !loser_sale_fires(cfg, s, up_price, down_price, now),
{
}

/// A tick touches only its own asset: every other asset's state is present
/// and equal after it exactly when it was before, and no position awaiting
/// settlement is lost.
pub proof fn law_tick_touches_one_asset(
    states: Map<Seq<char>, PreLimitOrderState>,
    positions: Map<Seq<char>, CycleTrade>,
    asset: Seq<char>,
    kept: Option<PreLimitOrderState>,
    handover: Option<CycleTrade>,
)
    ensures
        forall|k: Seq<char>| k != asset ==> (#[trigger] spec_commit_states(states, asset, kept).dom().contains(k)
            <==> states.dom().contains(k)),
        forall|k: Seq<char>| k != asset && states.dom().contains(k)
            ==> #[trigger] spec_commit_states(states, asset, kept)[k] == states[k],
        forall|k: Seq<char>| #[trigger] positions.dom().contains(k)
            ==> spec_commit_positions(positions, handover).dom().contains(k),
{
}

/// A straddle held to resolution is settled: when a valid state holding its
/// straddle intact leaves (its market ended, or new orders replaced it), the
/// positions awaiting settlement gain exactly that straddle under its
/// condition, both legs' order shares at their order prices, so it is
/// redeemed and its profit recorded once its market resolves.
pub proof fn law_held_straddle_settled(s: PreLimitOrderState, positions: Map<Seq<char>, CycleTrade>)
    requires
        s.wf(),
        holds_intact_straddle(s),
    ensures
        spec_commit_positions(positions, spec_handover(Some(s)))
            == positions.insert(s.condition_id@, spec_holding_both(s)),
        spec_holding_both(s).wf(),
{
}

/// A settlement pays a dollar per share of the leg that won, and nothing
/// for the other leg: when Up won the payout is the Up shares, when only
/// Down won it is the Down shares, and when neither won it is nothing. The
/// profit is the payout less what both legs cost, so a position with no
/// shares on the winning side loses its whole cost.
pub proof fn law_settlement_pays_the_winning_leg(t: CycleTrade, tokens: Seq<MarketToken>)
    requires
        t.wf(),
    ensures
        leg_won(tokens, t.up_token_id) ==> spec_settlement(t, tokens).payout == t.up_shares,
        !leg_won(tokens, t.up_token_id) && leg_won(tokens, t.down_token_id)
            ==> spec_settlement(t, tokens).payout == t.down_shares,
        !leg_won(tokens, t.up_token_id) && !leg_won(tokens, t.down_token_id)
            ==> spec_settlement(t, tokens).payout == 0,
        spec_settlement(t, tokens).pnl == spec_settlement(t, tokens).payout - spec_settlement(t, tokens).total_cost,
        spec_settlement(t, tokens).total_cost
            == spec_value_of(t.up_shares as int, t.up_avg_price as int) + spec_value_of(t.down_shares as int, t.down_avg_price as int),
        spec_settlement(t, tokens).up_wins == leg_won(tokens, t.up_token_id),
        spec_settlement(t, tokens).down_wins == leg_won(tokens, t.down_token_id),
{
    let n = t.up_shares as int;
    let m = t.down_shares as int;
    let u = t.up_avg_price as int;
    let d = t.down_avg_price as int;
    assert(0 <= n * u <= MAX_AMOUNT * SCALE) by (nonlinear_arith)
        requires 0 <= n <= MAX_AMOUNT, 0 <= u <= SCALE;
    assert(0 <= m * d <= MAX_AMOUNT * SCALE) by (nonlinear_arith)
        requires 0 <= m <= MAX_AMOUNT, 0 <= d <= SCALE;
    assert(0 <= (n * u) / (SCALE as int) <= MAX_AMOUNT) by (nonlinear_arith)
        requires 0 <= n * u <= MAX_AMOUNT * SCALE;
    assert(0 <= (m * d) / (SCALE as int) <= MAX_AMOUNT) by (nonlinear_arith)
        requires 0 <= m * d <= MAX_AMOUNT * SCALE;
}

/// Only a lone matched leg is ever sold early: with both legs matched, or
/// neither, the early-sale decision is no, in every mode, at every price
/// and time.
pub proof fn law_only_lone_leg_sold_early(cfg: StrategyConfig, mode: RiskMode, s: PreLimitOrderState, matched_price: int, now: int)
    requires
        s.up_matched == s.down_matched,
    ensures
        !spec_should_sell_early(cfg, mode, s, matched_price, now),
{
}

/// The share count of a quote is the larger Kelly size clamped between one
/// share and five times the configured shares (one share winning when the
/// two bounds cross): never below one share, never above the larger Kelly
/// size or the cap unless that is one share, and at least the smaller of
/// the larger Kelly size and the cap.
pub proof fn law_shares_clamp_larger_kelly_size(up_size: int, down_size: int, shares: int)
    ensures
        spec_shares_to_use(up_size, down_size, shares) >= SCALE,
        spec_shares_to_use(up_size, down_size, shares) <= up_size
            || spec_shares_to_use(up_size, down_size, shares) <= down_size
            || spec_shares_to_use(up_size, down_size, shares) == SCALE,
        spec_shares_to_use(up_size, down_size, shares) <= 5 * shares
            || spec_shares_to_use(up_size, down_size, shares) == SCALE,
        (up_size >= down_size && up_size <= 5 * shares) ==> spec_shares_to_use(up_size, down_size, shares) >= up_size,
        (down_size >= up_size && down_size <= 5 * shares) ==> spec_shares_to_use(up_size, down_size, shares) >= down_size,
        (up_size > 5 * shares || down_size > 5 * shares) ==> spec_shares_to_use(up_size, down_size, shares) >= 5 * shares,
{
}

/// A pre-order quote is sized by its own Kelly sizes: its share count is
/// the larger of the Up and Down Kelly sizes at the quoted prices, clamped
/// between one share and five times the configured shares.
pub proof fn law_preorder_shares_from_kelly(cfg: StrategyConfig, bankroll: int, up_inv: int, down_inv: int)
    requires
        cfg.wf(),
        spec_preorder_quote(cfg, bankroll, up_inv, down_inv) is Some,
    ensures
        ({
            let q = spec_preorder_quote(cfg, bankroll, up_inv, down_inv).unwrap();
            let ku = spec_kelly_size(PREORDER_P_UP as int, q.up_price as int, cfg.kelly_fraction_k as int, bankroll);
            let kd = spec_kelly_size(PREORDER_P_DOWN as int, q.down_price as int, cfg.kelly_fraction_k as int, bankroll);
            &&& q.shares >= SCALE
            &&& (q.shares <= ku || q.shares <= kd || q.shares == SCALE)
            &&& (q.shares <= 5 * cfg.shares || q.shares == SCALE)
            &&& ((ku >= kd && ku <= 5 * cfg.shares) ==> q.shares >= ku)
            &&& ((kd >= ku && kd <= 5 * cfg.shares) ==> q.shares >= kd)
        }),
{
    let delta = spec_inventory_penalty(cfg.risk_aversion_gamma as int, up_inv, down_inv);
    let up = spec_round_price(cfg.price_limit - delta);
    let down = spec_round_price(cfg.price_limit + delta);
    law_round_price_idempotent(cfg.price_limit - delta);
    law_round_price_idempotent(cfg.price_limit + delta);
    let ku = spec_kelly_size(PREORDER_P_UP as int, up, cfg.kelly_fraction_k as int, bankroll);
    let kd = spec_kelly_size(PREORDER_P_DOWN as int, down, cfg.kelly_fraction_k as int, bankroll);
    law_shares_clamp_larger_kelly_size(ku, kd, cfg.shares as int);
    let n = spec_shares_to_use(ku, kd, cfg.shares as int);
    assert(SCALE <= n <= 5 * MAX_AMOUNT) by {
        assert(5 * cfg.shares <= MAX_AMOUNT);
    }
}

/// Nothing is handed over for a state that has sold a leg: once the loser
/// was sold (the state merged) or the lone leg was danger-sold, neither the
/// end of its market nor its replacement hands a position over (the winner
/// kept was registered when the loser was sold); nor does a state with an
/// unmatched leg. Only a state holding both legs, neither sold, hands over
/// both legs' order shares at their order prices.
pub proof fn law_handover_only_intact_straddle(s: PreLimitOrderState)
    ensures
        (s.merged || s.risk_sold || !s.up_matched || !s.down_matched) ==> spec_handover(Some(s)) is None,
        (!s.merged && !s.risk_sold && s.up_matched && s.down_matched) ==> spec_handover(Some(s)) is Some,
        spec_handover(Some(s)) matches Some(t) ==> {
            &&& t.condition_id == s.condition_id
            &&& t.up_shares == s.up_order_shares && t.down_shares == s.down_order_shares
            &&& t.up_avg_price == s.up_order_price && t.down_avg_price == s.down_order_price
        },
{
}

/// Only a state for the next period blocks its pre-orders: inside the
/// pre-order window (at most `place_order_before_mins` minutes before the
/// next period and at least a minute into the current one), with no lone
/// matched leg awaiting protection, pre-orders are sought unless the state
/// expires exactly at the end of the next period; a state expiring at the
/// end of the current period never blocks them. Outside the window they are
/// never sought.
pub proof fn law_preorders_sought_unless_next_prepared(
    cfg: StrategyConfig,
    state: Option<PreLimitOrderState>,
    current_period: int,
    now: int,
)
    ensures
        ({
            let in_window = current_period + 900 - now <= cfg.place_order_before_mins * 60
                && now - current_period >= 60;
            let lone_leg = (state matches Some(s) && !s.merged && !s.risk_sold
                && s.status != CycleStatus::WaitingForNextCycle && s.up_matched != s.down_matched);
            let prepared = (state matches Some(s) && s.expiry == current_period + 1800);
            let current_only = (state matches Some(s) && s.expiry == current_period + 900);
            &&& spec_should_seek_preorders(cfg, state, current_period, now) == (in_window && !prepared && !lone_leg)
            &&& (in_window && !lone_leg && current_only) ==> spec_should_seek_preorders(cfg, state, current_period, now)
        }),
{
}

/// A lone matched leg is sold early exactly when its mode says so: in price
/// mode once its price is at or below the danger price, in time mode once
/// the danger time has passed since it matched, and never with the risk
/// management off.
pub proof fn law_lone_leg_sale_by_mode(cfg: StrategyConfig, mode: RiskMode, s: PreLimitOrderState, matched_price: int, now: int)
    requires
        s.up_matched != s.down_matched,
    ensures
        mode == RiskMode::Price ==> (spec_should_sell_early(cfg, mode, s, matched_price, now)
            == (matched_price <= cfg.signal.danger_price)),
        mode == RiskMode::Time ==> (spec_should_sell_early(cfg, mode, s, matched_price, now)
            == (s.one_side_matched_at is Some && now - s.one_side_matched_at.unwrap() >= cfg.signal.danger_time_passed * 60)),
        mode == RiskMode::Off ==> !spec_should_sell_early(cfg, mode, s, matched_price, now),
{
}

} // verus!
