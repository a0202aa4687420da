use polymarket_arbitrage_bot::config::{Config, StrategyConfig};
use polymarket_arbitrage_bot::keyed::KeyedVec;
use polymarket_arbitrage_bot::models::Market;
use polymarket_arbitrage_bot::processor::{
    danger_limit_price, is_tradeable, limit_order_request, risk_mode_of_lower, sale_loss, simulated_order_response,
    snapshot_time_remaining, MarketProcessor, OrderPlacement, PreorderDecision, Quote, RiskMode,
};
use polymarket_arbitrage_bot::risk::{
    apply_api_fills, apply_price_fills, price_hits_limit, FillCheck, HedgeDirection, RiskManager,
};
use polymarket_arbitrage_bot::signals::MarketSignal;
use polymarket_arbitrage_bot::state::{CycleStatus, CycleTrade, PreLimitOrderState, Side};

fn cfg() -> StrategyConfig {
    let mut c = Config::default().strategy;
    c.signal.danger_price = 280_000;
    c.signal.danger_time_passed = 15;
    c
}

fn state() -> PreLimitOrderState {
    PreLimitOrderState::opened(
        "ETH".to_string(),
        "0xcond".to_string(),
        "up-token".to_string(),
        "down-token".to_string(),
        Some("order-up".to_string()),
        Some("order-down".to_string()),
        450_000,
        450_000,
        10_000_000,
        1_771_008_300,
        1_771_008_180,
        Some(3_000_000_000),
    )
}

#[test]
fn opened_state_fields() {
    let s = state();
    assert_eq!(s.expiry, 1_771_009_200);
    assert_eq!(s.market_period_start, 1_771_008_300);
    assert_eq!(s.status, CycleStatus::AcceptingOrders);
    assert!(!s.up_matched && !s.down_matched);
    assert_eq!(s.up_order_shares, 10_000_000);
    assert_eq!(s.up_shares, 0);
}

#[test]
fn kelly_size_example() {
    let r = RiskManager::new(cfg());
    assert_eq!(r.calculate_kelly_size(520_000, 450_000), 35_353_535);
    assert_eq!(r.calculate_kelly_size(480_000, 450_000), 15_151_515);
}

#[test]
fn kelly_size_zero_without_edge() {
    let r = RiskManager::new(cfg());
    assert_eq!(r.calculate_kelly_size(450_000, 450_000), 0);
    assert_eq!(r.calculate_kelly_size(400_000, 450_000), 0);
    assert_eq!(r.calculate_kelly_size(500_000, 0), 0);
    assert_eq!(r.calculate_kelly_size(500_000, 1_000_000), 0);
}

#[test]
fn inventory_penalty_example_and_symmetry() {
    let r = RiskManager::new(cfg());
    assert_eq!(r.calculate_inventory_penalty(10_000_000, 0), 10_000);
    assert_eq!(r.calculate_inventory_penalty(0, 10_000_000), -10_000);
    assert_eq!(r.calculate_inventory_penalty(7_000_000, 7_000_000), 0);
}

#[test]
fn bankroll_moves_with_pnl() {
    let mut r = RiskManager::new(cfg());
    assert_eq!(r.bankroll(), 500_000_000);
    r.record_pnl(-4_000_000);
    assert_eq!(r.bankroll(), 496_000_000);
    r.record_pnl(1_500_000);
    assert_eq!(r.bankroll(), 497_500_000);
}

#[test]
fn fill_check_modes() {
    let live = RiskManager::new(cfg());
    let mut sim_cfg = cfg();
    sim_cfg.simulation_mode = true;
    let sim = RiskManager::new(sim_cfg);
    let s = state();
    assert_eq!(live.fill_check_mode(&s, 1_771_008_299), FillCheck::NotStarted);
    assert_eq!(live.fill_check_mode(&s, 1_771_008_300), FillCheck::ViaApi);
    assert_eq!(sim.fill_check_mode(&s, 1_771_008_300), FillCheck::ViaPrice);
    let mut simulated = state();
    simulated.up_order_id = Some("SIM-BUY-17".to_string());
    assert_eq!(live.fill_check_mode(&simulated, 1_771_008_400), FillCheck::ViaPrice);
}

#[test]
fn api_fills_set_shares_once() {
    let mut s = state();
    apply_api_fills(&mut s, true, false);
    assert!(s.up_matched && !s.down_matched);
    assert_eq!(s.up_shares, 10_000_000);
    s.up_shares = 3;
    apply_api_fills(&mut s, true, false);
    assert_eq!(s.up_shares, 3);
}

#[test]
fn price_fills_within_tolerance() {
    let mut s = state();
    let r = apply_price_fills(&mut s, Some(450_900), Some(451_000));
    assert_eq!(r, (true, false));
    assert!(s.up_matched && !s.down_matched);
    let r2 = apply_price_fills(&mut s, Some(100_000), None);
    assert_eq!(r2, (false, false));
    assert!(price_hits_limit(10_000, 450_000));
    assert!(!price_hits_limit(460_000, 450_000));
}

#[test]
fn kill_switch_cancels_toxic_orders() {
    let r = RiskManager::new(cfg());
    let mut s = state();
    let a = r.check_oracle_safety(&mut s, Some(2_980_000_000));
    assert_eq!(a.cancel_up, Some("order-up".to_string()));
    assert!(a.cancel_down.is_none());
    assert!(s.up_order_id.is_none());
    assert!(s.down_order_id.is_some());

    let mut s2 = state();
    let a2 = r.check_oracle_safety(&mut s2, Some(3_020_000_000));
    assert_eq!(a2.cancel_down, Some("order-down".to_string()));
    assert!(s2.down_order_id.is_none());

    let mut s3 = state();
    let a3 = r.check_oracle_safety(&mut s3, Some(3_010_000_000));
    assert!(a3.cancel_up.is_none() && a3.cancel_down.is_none());
}

#[test]
fn kill_switch_in_simulation_drops_without_cancel() {
    let mut c = cfg();
    c.simulation_mode = true;
    let r = RiskManager::new(c);
    let mut s = state();
    let a = r.check_oracle_safety(&mut s, Some(2_980_000_000));
    assert!(a.cancel_up.is_none());
    assert!(s.up_order_id.is_none());
}

#[test]
fn kill_switch_hedges_lone_leg_once() {
    let r = RiskManager::new(cfg());
    let mut s = state();
    apply_api_fills(&mut s, true, false);
    let a = r.check_oracle_safety(&mut s, None);
    assert_eq!(a.open_hedge, Some((HedgeDirection::Short, 10_000_000)));
    assert!(s.up_hedged);
    let again = r.check_oracle_safety(&mut s, None);
    assert!(again.open_hedge.is_none());

    let mut d = state();
    apply_api_fills(&mut d, false, true);
    let b = r.check_oracle_safety(&mut d, None);
    assert_eq!(b.open_hedge, Some((HedgeDirection::Long, 10_000_000)));
}

#[test]
fn kill_switch_closes_hedge_of_straddle_and_of_sold_position() {
    let r = RiskManager::new(cfg());
    let mut s = state();
    apply_api_fills(&mut s, true, true);
    let a = r.check_oracle_safety(&mut s, None);
    assert_eq!(a.close_hedge, Some(20_000_000));
    assert!(s.both_hedged);
    let mut m = state();
    apply_api_fills(&mut m, true, false);
    m.merged = true;
    let b = r.check_oracle_safety(&mut m, Some(1));
    assert_eq!(b.close_hedge, Some(10_000_000));
    assert!(m.up_order_id.is_some());
}

#[test]
fn preorder_quote_default_config() {
    let p = MarketProcessor::new(cfg());
    let q = p.plan_preorder(0, 0).unwrap();
    assert_eq!(q, Quote { up_price: 450_000, down_price: 450_000, shares: 25_000_000 });
}

#[test]
fn preorder_quote_skews_against_inventory() {
    let p = MarketProcessor::new(cfg());
    let q = p.plan_preorder(10_000_000, 0).unwrap();
    assert_eq!(q.up_price, 440_000);
    assert_eq!(q.down_price, 460_000);
}

#[test]
fn preorder_quote_rejects_expensive_straddle() {
    let mut c = cfg();
    c.price_limit = 480_000;
    let p = MarketProcessor::new(c);
    assert!(p.plan_preorder(0, 0).is_none());
}

#[test]
fn preorder_window() {
    let p = MarketProcessor::new(cfg());
    let period = 1_771_007_400;
    assert!(!p.should_seek_preorders(&None, period, period + 700));
    assert!(p.should_seek_preorders(&None, period, period + 720));
    assert!(!p.should_seek_preorders(&None, period, period + 30));
    let prepared = PreLimitOrderState::opened(
        "BTC".to_string(), "c".to_string(), "u".to_string(), "d".to_string(), None, None,
        450_000, 450_000, 1_000_000, period + 900, period + 700, None);
    assert!(!p.should_seek_preorders(&Some(prepared), period, period + 720));
}

#[test]
fn danger_handling_blocks_preorders() {
    let mut s = state();
    apply_api_fills(&mut s, true, false);
    let st = Some(s);
    assert!(MarketProcessor::needs_danger_handling(&st));
    let p = MarketProcessor::new(cfg());
    let period = 1_771_007_400;
    assert!(!p.should_seek_preorders(&st, period, period + 720));
    let mut w = state();
    apply_api_fills(&mut w, true, false);
    w.status = CycleStatus::WaitingForNextCycle;
    assert!(!MarketProcessor::needs_danger_handling(&Some(w)));
}

#[test]
fn entry_timeouts() {
    let p = MarketProcessor::new(cfg());
    let mut s = state();
    assert!(!p.apply_entry_timeouts(&mut s, 1_771_008_300, 1_771_008_300));
    assert!(p.apply_entry_timeouts(&mut s, 1_771_008_361, 1_771_008_300));
    assert_eq!(s.status, CycleStatus::WaitingForNextCycle);
    let mut late = state();
    assert!(p.apply_entry_timeouts(&mut late, 1_771_009_021, 1_771_008_300));
    assert_eq!(late.status, CycleStatus::WaitingForNextCycle);
    let mut formed = state();
    apply_api_fills(&mut formed, true, true);
    assert!(!p.apply_entry_timeouts(&mut formed, 1_771_009_100, 1_771_008_300));
    assert_eq!(formed.status, CycleStatus::AcceptingOrders);
    MarketProcessor::mark_straddle_formed(&mut formed);
    assert_eq!(formed.status, CycleStatus::StraddleFormed);
}

#[test]
fn correlation_front_run() {
    let s = state();
    assert!(MarketProcessor::correlation_applies("ETH", &s));
    assert!(!MarketProcessor::correlation_applies("BTC", &s));
    assert_eq!(MarketProcessor::correlation_side(&s, Some(3_000)), Some(Side::Up));
    assert_eq!(MarketProcessor::correlation_side(&s, Some(-3_000)), Some(Side::Down));
    assert_eq!(MarketProcessor::correlation_side(&s, Some(2_500)), None);
    assert_eq!(MarketProcessor::correlation_side(&s, None), None);
    let mut t = state();
    MarketProcessor::apply_front_run(&mut t, Side::Down, 470_000);
    assert!(t.down_matched && !t.up_matched);
    assert_eq!(t.down_shares, 10_000_000);
    assert_eq!(t.winner_entry_price, Some(470_000));
}

#[test]
fn loser_sale_fires_late_with_a_clear_winner() {
    let p = MarketProcessor::new(cfg());
    let mut s = state();
    apply_api_fills(&mut s, true, true);
    assert!(p.plan_loser_sale(&s, 750_000, 250_000, s.expiry - 700).is_none());
    let sale = p.plan_loser_sale(&s, 750_000, 250_000, s.expiry - 600).unwrap();
    assert_eq!(sale.winner, Side::Up);
    assert_eq!(sale.token_to_sell, "down-token");
    assert_eq!(sale.purchase_price, 450_000);
    assert_eq!(sale.shares, 10_000_000);
    assert!(p.plan_loser_sale(&s, 600_000, 400_000, s.expiry - 60).is_none());
    let down = p.plan_loser_sale(&s, 200_000, 800_000, s.expiry - 60).unwrap();
    assert_eq!(down.winner, Side::Down);
    assert_eq!(down.token_to_sell, "up-token");
    let trade = MarketProcessor::apply_loser_sale(&mut s, Side::Up);
    assert_eq!(s.status, CycleStatus::ClosingLoser);
    assert!(s.merged);
    assert_eq!(s.winner_entry_price, Some(450_000));
    assert_eq!(trade.up_shares, 10_000_000);
    assert_eq!(trade.down_shares, 0);
    assert_eq!(trade.period_timestamp, 1_771_008_300);
    assert!(p.plan_loser_sale(&s, 750_000, 250_000, s.expiry - 60).is_none());
    assert_eq!(sale_loss(450_000, 250_000, 10_000_000), 2_000_000);
}

#[test]
fn one_side_risk_modes() {
    let mut c = cfg();
    c.signal.one_side_buy_risk_management = "Sell_At_Danger_PRICE".to_string();
    assert_eq!(MarketProcessor::new(c).risk_mode(), RiskMode::Price);
    let mut c2 = cfg();
    c2.signal.one_side_buy_risk_management = "timeout".to_string();
    assert_eq!(MarketProcessor::new(c2).risk_mode(), RiskMode::Time);
    let mut c3 = cfg();
    c3.signal.one_side_buy_risk_management = "none".to_string();
    assert_eq!(MarketProcessor::new(c3).risk_mode(), RiskMode::Off);
}

#[test]
fn one_side_early_sale_decisions() {
    let p = MarketProcessor::new(cfg());
    let mut s = state();
    assert!(!p.should_sell_early(RiskMode::Price, &s, 0, 1_771_008_400));
    apply_api_fills(&mut s, true, false);
    MarketProcessor::track_one_side(&mut s, 1_771_008_400);
    assert_eq!(s.one_side_matched_at, Some(1_771_008_400));
    MarketProcessor::track_one_side(&mut s, 1_771_008_500);
    assert_eq!(s.one_side_matched_at, Some(1_771_008_400));
    assert!(p.should_sell_early(RiskMode::Price, &s, 280_000, 1_771_008_500));
    assert!(!p.should_sell_early(RiskMode::Price, &s, 300_000, 1_771_008_500));
    assert!(!p.should_sell_early(RiskMode::Time, &s, 0, 1_771_009_299));
    assert!(p.should_sell_early(RiskMode::Time, &s, 0, 1_771_009_300));
    assert!(!p.should_sell_early(RiskMode::Off, &s, 0, 1_771_009_300));
    MarketProcessor::apply_confirmed_straddle(&mut s);
    assert!(s.up_matched && s.down_matched);
}

#[test]
fn danger_sale_limit_and_loss() {
    assert_eq!(danger_limit_price(300_000), 240_000);
    assert_eq!(danger_limit_price(50_000), 50_000);
    assert_eq!(danger_limit_price(0), 50_000);
    let mut s = state();
    apply_api_fills(&mut s, false, true);
    let d = MarketProcessor::plan_danger_sale(&s, 300_000);
    assert_eq!(d.side, Side::Down);
    assert_eq!(d.limit_price, 240_000);
    assert_eq!(d.shares, 10_000_000);
    assert_eq!(d.loss, 2_100_000);
    MarketProcessor::apply_danger_sale(&mut s);
    assert!(s.risk_sold && s.merged);
}

#[test]
fn expiry_hands_over_intact_straddle() {
    let mut s = state();
    apply_api_fills(&mut s, true, true);
    let before = MarketProcessor::expiry_outcome(&s, s.expiry);
    assert!(!before.expired);
    assert!(before.trade.is_none());
    let o = MarketProcessor::expiry_outcome(&s, s.expiry + 1);
    assert!(o.expired);
    let t: CycleTrade = o.trade.unwrap();
    assert_eq!(t.up_shares, 10_000_000);
    assert_eq!(t.down_avg_price, 450_000);
    assert_eq!(o.loss, 0);
}

#[test]
fn expiry_logs_entry_cost_of_winner() {
    let mut s = state();
    MarketProcessor::apply_front_run(&mut s, Side::Up, 600_000);
    let o = MarketProcessor::expiry_outcome(&s, s.expiry + 5);
    assert!(o.expired);
    assert!(o.trade.is_none());
    assert_eq!(o.loss, -6_000_000);
}

#[test]
fn mid_market_entries_never_pass_the_cost_cap() {
    let mut c = cfg();
    c.signal.mid_market_enabled = true;
    let p = MarketProcessor::new(c);
    assert!(p.plan_mid_market(300_000, 700_000).is_none());
    assert!(p.plan_mid_market(500_000, 500_000).is_none());
    assert!(p.plan_mid_market(0, 0).is_none());
    let period = 1_771_007_400;
    assert!(p.should_seek_mid_market(period, period));
    assert!(!p.should_seek_mid_market(period, period + 10));
}

#[test]
fn limit_orders_and_simulated_answers() {
    let o = limit_order_request("tok", "BUY", 446_000, 25_000_000);
    assert_eq!(o.token_id, "tok");
    assert_eq!(o.side, "BUY");
    assert_eq!(o.size, "25");
    assert_eq!(o.price, "0.45");
    assert_eq!(o.order_type, "LIMIT");
    let r = simulated_order_response("SELL", 1_771_007_400);
    assert_eq!(r.order_id, Some("SIM-SELL-1771007400".to_string()));
    assert_eq!(r.status, "SIMULATED");
    assert!(r.message.is_none());
    let mut c = cfg();
    c.simulation_mode = true;
    match MarketProcessor::new(c).place_limit_order("tok", "BUY", 450_000, 1_000_000) {
        OrderPlacement::Simulated(resp) => assert!(resp.order_id.unwrap().starts_with("SIM-BUY-")),
        OrderPlacement::Submit(_) => panic!("simulation must not submit"),
    }
    match MarketProcessor::new(cfg()).place_limit_order("tok", "BUY", 450_000, 1_500_000) {
        OrderPlacement::Submit(o) => assert_eq!(o.size, "1.5"),
        OrderPlacement::Simulated(_) => panic!("live must submit"),
    }
}

#[test]
fn inventory_of_asset() {
    let mut states: KeyedVec<PreLimitOrderState> = KeyedVec::new();
    assert_eq!(MarketProcessor::inventory(&states, "ETH"), (0, 0));
    let mut s = state();
    apply_api_fills(&mut s, true, false);
    states.insert("ETH".to_string(), s);
    assert_eq!(MarketProcessor::inventory(&states, "ETH"), (10_000_000, 0));
    assert_eq!(MarketProcessor::inventory(&states, "BTC"), (0, 0));
}

#[test]
fn tradeable_markets_and_snapshot_time() {
    let m = Market {
        condition_id: "c".to_string(),
        market_id: None,
        question: "q".to_string(),
        slug: "s".to_string(),
        end_date_iso: None,
        active: true,
        closed: false,
    };
    assert!(is_tradeable(&m));
    let closed = Market { closed: true, ..m };
    assert!(!is_tradeable(&closed));
    assert_eq!(snapshot_time_remaining(1_000, 1_300), 600);
    assert_eq!(snapshot_time_remaining(1_000, 2_000), 0);
}

#[test]
fn risk_mode_from_lowercased_setting() {
    assert_eq!(risk_mode_of_lower("price"), RiskMode::Price);
    assert_eq!(risk_mode_of_lower("sell_at_danger_price"), RiskMode::Price);
    assert_eq!(risk_mode_of_lower("time_or_price"), RiskMode::Price);
    assert_eq!(risk_mode_of_lower("sell_after_danger_time_passed"), RiskMode::Time);
    assert_eq!(risk_mode_of_lower("none"), RiskMode::Off);
    assert_eq!(risk_mode_of_lower("PRICE"), RiskMode::Off);
}

#[test]
fn preorder_decision_needs_good_signal() {
    let p = MarketProcessor::new(cfg());
    let period = 1_771_007_400;
    let q = Quote { up_price: 450_000, down_price: 450_000, shares: 25_000_000 };
    assert_eq!(p.decide_preorder(&None, MarketSignal::Good, 0, 0, period, period + 720), PreorderDecision::Place(q));
    assert_eq!(p.decide_preorder(&None, MarketSignal::Bad, 0, 0, period, period + 720), PreorderDecision::Hold);
    assert_eq!(p.decide_preorder(&None, MarketSignal::Unknown, 0, 0, period, period + 720), PreorderDecision::Hold);
    assert_eq!(p.decide_preorder(&None, MarketSignal::Good, 0, 0, period, period + 700), PreorderDecision::Hold);
    let mut dear = cfg();
    dear.price_limit = 480_000;
    let p2 = MarketProcessor::new(dear);
    assert_eq!(p2.decide_preorder(&None, MarketSignal::Good, 0, 0, period, period + 720), PreorderDecision::TooExpensive);
}

#[test]
fn held_straddle_is_handed_over_when_replaced_or_expired() {
    let mut s = state();
    assert!(MarketProcessor::handover_on_replace(&Some(state())).is_none());
    apply_api_fills(&mut s, true, true);
    let t = MarketProcessor::handover_on_replace(&Some(state_with_fills())).unwrap();
    assert_eq!((t.up_shares, t.down_shares, t.up_avg_price, t.down_avg_price), (10_000_000, 10_000_000, 450_000, 450_000));
    assert_eq!(t.condition_id, "0xcond");
    let expiry = s.expiry;
    let (kept, out) = MarketProcessor::finish_tick(s, expiry);
    assert!(!out.expired && out.trade.is_none());
    let s = kept.unwrap();
    let (kept, out) = MarketProcessor::finish_tick(s, expiry + 1);
    assert!(kept.is_none() && out.expired);
    assert_eq!(out.trade.unwrap().up_shares, 10_000_000);
    let mut sold = state_with_fills();
    MarketProcessor::apply_danger_sale(&mut sold);
    assert!(MarketProcessor::handover_on_replace(&Some(sold)).is_none());
}

fn state_with_fills() -> PreLimitOrderState {
    let mut s = state();
    apply_api_fills(&mut s, true, true);
    s
}

#[test]
fn wide_gamma_and_kelly_fraction() {
    let mut c = cfg();
    c.risk_aversion_gamma = 2_000_000;
    c.kelly_fraction_k = 1_500_000;
    let r = RiskManager::new(c);
    assert_eq!(r.calculate_inventory_penalty(10_000_000, 0), 20_000_000);
    let mut c = cfg();
    c.risk_aversion_gamma = i64::MAX;
    let p = MarketProcessor::new(c);
    assert_eq!(p.plan_preorder(1_000_000, 0), None);
    let mut c = cfg();
    c.risk_aversion_gamma = 50_000;
    let p = MarketProcessor::new(c);
    let q = p.plan_preorder(1_000_000, 0).unwrap();
    assert_eq!((q.up_price, q.down_price), (400_000, 500_000));
}
