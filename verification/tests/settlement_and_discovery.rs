use polymarket_arbitrage_bot::closure::{is_due, redemption, settle, Ledger};
use polymarket_arbitrage_bot::config::Config;
use polymarket_arbitrage_bot::discovery::{
    asset_slug, get_current_15m_period_et, get_current_time_et, outcome_side, period_start_of, updown_slug,
    DiscoveryError, MarketDiscovery,
};
use polymarket_arbitrage_bot::models::{MarketDetails, MarketToken};
use polymarket_arbitrage_bot::state::{CycleTrade, Side};
use polymarket_arbitrage_bot::strategy::{countdown, idle_status, IdleStatus, PreLimitStrategy};

fn trade(up: i64, down: i64, up_price: i64, down_price: i64) -> CycleTrade {
    CycleTrade {
        condition_id: "0xabc".to_string(),
        period_timestamp: 1_771_007_400,
        market_duration_secs: 900,
        up_token_id: Some("UPT".to_string()),
        down_token_id: Some("DNT".to_string()),
        up_shares: up,
        down_shares: down,
        up_avg_price: up_price,
        down_avg_price: down_price,
    }
}

fn tok(outcome: &str, id: &str, winner: bool) -> MarketToken {
    MarketToken { outcome: outcome.to_string(), token_id: id.to_string(), winner }
}

#[test]
fn settle_straddle_up_wins() {
    let t = trade(10_000_000, 10_000_000, 450_000, 450_000);
    let s = settle(&t, &vec![tok("Up", "UPT", true), tok("Down", "DNT", false)]);
    assert!(s.up_wins && !s.down_wins);
    assert_eq!(s.total_cost, 9_000_000);
    assert_eq!(s.payout, 10_000_000);
    assert_eq!(s.pnl, 1_000_000);
}

#[test]
fn settle_winner_only_down_wins() {
    let t = trade(0, 10_000_000, 0, 450_000);
    let s = settle(&t, &vec![tok("Up", "UPT", false), tok("Down", "DNT", true)]);
    assert!(!s.up_wins && s.down_wins);
    assert_eq!(s.pnl, 5_500_000);
}

#[test]
fn settle_unresolved_pays_nothing() {
    let t = trade(10_000_000, 10_000_000, 450_000, 450_000);
    let s = settle(&t, &vec![tok("Up", "UPT", false), tok("Down", "DNT", false)]);
    assert_eq!(s.payout, 0);
    assert_eq!(s.pnl, -9_000_000);
    assert!(redemption(&t, &s, false).is_none());
}

#[test]
fn straddle_under_cap_profits_six_percent() {
    let t = trade(10_000_000, 10_000_000, 470_000, 470_000);
    let s = settle(&t, &vec![tok("Up", "UPT", true)]);
    assert!(s.pnl * 1_000_000 >= 60_000 * 10_000_000);
    assert_eq!(s.pnl, 600_000);
}

#[test]
fn straddle_below_a_dollar_never_loses() {
    let t = trade(10_000_000, 10_000_000, 490_000, 490_000);
    assert_eq!(settle(&t, &vec![tok("Down", "DNT", true)]).pnl, 200_000);
    let even = trade(3_000_000, 3_000_000, 500_000, 500_000);
    assert_eq!(settle(&even, &vec![tok("Up", "UPT", true)]).pnl, 0);
    let dear = trade(10_000_000, 10_000_000, 550_000, 500_000);
    assert_eq!(settle(&dear, &vec![tok("Up", "UPT", true)]).pnl, -500_000);
}

#[test]
fn redemption_of_winner() {
    let t = trade(10_000_000, 10_000_000, 450_000, 450_000);
    let s = settle(&t, &vec![tok("Down", "DNT", true)]);
    assert_eq!(redemption(&t, &s, false), Some(("DNT".to_string(), Side::Down)));
    assert!(redemption(&t, &s, true).is_none());
    let u = settle(&t, &vec![tok("Up", "UPT", true)]);
    assert_eq!(redemption(&t, &u, false), Some(("UPT".to_string(), Side::Up)));
}

#[test]
fn due_after_period_end() {
    let t = trade(1, 1, 1, 1);
    assert!(!is_due(&t, 1_771_008_299));
    assert!(is_due(&t, 1_771_008_300));
}

#[test]
fn ledger_register_due_and_settle() {
    let mut l = Ledger::new();
    l.register("0xabc".to_string(), trade(10_000_000, 10_000_000, 450_000, 450_000));
    let mut other = trade(1_000_000, 0, 500_000, 0);
    other.condition_id = "0xdef".to_string();
    other.period_timestamp = 1_771_009_200;
    l.register("0xdef".to_string(), other);
    assert_eq!(l.due_keys(1_771_008_300), vec!["0xabc".to_string()]);
    assert_eq!(l.due_keys(1_771_010_100).len(), 2);
    l.record_settlement("0xabc", "0xabc", 1_000_000);
    assert_eq!(l.total_profit, 1_000_000);
    assert_eq!(l.period_profit, 1_000_000);
    assert!(l.is_checked("0xabc"));
    assert!(l.trades.get("0xabc").is_none());
    assert_eq!(l.due_keys(1_771_010_100), vec!["0xdef".to_string()]);
}

#[test]
fn settled_condition_is_never_due_again() {
    let mut l = Ledger::new();
    l.register("k1".to_string(), trade(10_000_000, 10_000_000, 450_000, 450_000));
    l.record_settlement("k1", "0xabc", 1_000_000);
    l.register("k2".to_string(), trade(5_000_000, 5_000_000, 450_000, 450_000));
    assert!(l.due_keys(1_771_008_300).is_empty());
    assert!(l.due_keys(1_900_000_000).is_empty());
}

#[test]
fn ledger_register_replaces() {
    let mut l = Ledger::new();
    l.register("k".to_string(), trade(1, 1, 1, 1));
    l.register("k".to_string(), trade(2, 2, 2, 2));
    assert_eq!(l.trades.len(), 1);
    assert_eq!(l.trades.get("k").unwrap().up_shares, 2);
}

#[test]
fn strategy_settles_closed_markets_only() {
    let mut st = PreLimitStrategy::new(Config::default().strategy);
    st.ledger.register("0xabc".to_string(), trade(10_000_000, 10_000_000, 450_000, 450_000));
    let open = MarketDetails {
        condition_id: "0xabc".to_string(),
        question: "q".to_string(),
        tokens: vec![tok("Up", "UPT", false), tok("Down", "DNT", false)],
        active: true,
        closed: false,
        end_date_iso: "".to_string(),
    };
    assert!(st.settle_market("0xabc", &open).is_none());
    assert_eq!(st.get_total_profit(), 0);
    let closed = MarketDetails { closed: true, tokens: vec![tok("Up", "UPT", true), tok("Down", "DNT", false)], ..open };
    let rep = st.settle_market("0xabc", &closed).unwrap();
    assert_eq!(rep.settlement.pnl, 1_000_000);
    assert_eq!(rep.redeem, Some(("UPT".to_string(), Side::Up)));
    assert_eq!(st.get_total_profit(), 1_000_000);
    assert_eq!(st.get_period_profit(), 1_000_000);
    assert!(st.ledger.trades.get("0xabc").is_none());
    st.book_loss(400_000);
    assert_eq!(st.get_total_profit(), 600_000);
    assert_eq!(st.get_period_profit(), 1_000_000);
}

#[test]
fn idle_status_lines() {
    let c = Config::default().strategy;
    let p = 1_771_007_400;
    assert_eq!(idle_status(&c, p, p + 125), IdleStatus::Idle { elapsed_mins: 2, elapsed_secs: 5, window_mins: 9, window_secs: 55 });
    assert_eq!(idle_status(&c, p, p + 800), IdleStatus::InOrderWindow { secs_until_next: 100 });
    assert_eq!(idle_status(&c, p, p + 910), IdleStatus::WaitingForNext { next_period_start: p + 900, secs_ago: 10 });
    assert_eq!(countdown(p, p + 125), (12, 55));
    assert_eq!(countdown(p, p + 1000), (0, 0));
}

#[test]
fn fifteen_minute_slug() {
    assert_eq!(MarketDiscovery::build_15m_slug("BTC", 1_771_007_400), "btc-updown-15m-1771007400");
    assert_eq!(MarketDiscovery::build_15m_slug("xrp", -900), "xrp-updown-15m--900");
}

#[test]
fn fifteen_minute_slugs_differ_by_period() {
    let a = MarketDiscovery::build_15m_slug("ETH", 1_771_007_400);
    let b = MarketDiscovery::build_15m_slug("ETH", 1_771_008_300);
    let c = MarketDiscovery::build_15m_slug("ETH", 177_100_740);
    assert_ne!(a, b);
    assert_ne!(a, c);
    assert_eq!(b, "eth-updown-15m-1771008300");
}

#[test]
fn hourly_slug() {
    assert_eq!(MarketDiscovery::build_1h_slug("bitcoin", 1_741_197_600), "bitcoin-up-or-down-march-5-1pm-et");
    assert_eq!(MarketDiscovery::build_1h_slug("ethereum", 1_767_225_600), "ethereum-up-or-down-december-31-7pm-et");
    assert_eq!(MarketDiscovery::build_1h_slug("xrp", 1_762_056_000), "xrp-up-or-down-november-2-12am-et");
    assert_eq!(MarketDiscovery::build_1h_slug("solana", 1_741_201_200), "solana-up-or-down-march-5-2pm-et");
}

#[test]
fn period_start_rounds_down() {
    assert_eq!(period_start_of(1_771_007_412), 1_771_007_400);
    assert_eq!(period_start_of(1_771_007_400), 1_771_007_400);
    assert_eq!(period_start_of(1_771_008_299), 1_771_007_400);
}

#[test]
fn clock_reads_are_plausible() {
    let now = get_current_time_et();
    assert!(now > 1_700_000_000);
    let p = get_current_15m_period_et();
    assert_eq!(p % 900, 0);
    assert!(p <= get_current_time_et());
    assert_eq!(MarketDiscovery::current_15m_period_start_et() % 900, 0);
    if let Some(h) = MarketDiscovery::current_1h_period_start_et() {
        assert_eq!(h % 3600, 0);
        assert!(h <= get_current_time_et());
    }
}

#[test]
fn market_tokens_by_outcome() {
    let toks = vec![tok("Up", "a", false), tok("Down", "b", false)];
    assert_eq!(MarketDiscovery::<()>::get_market_tokens(&toks), Ok(("a".to_string(), "b".to_string())));
    let numeric = vec![tok("0", "d", false), tok("1", "u", false)];
    assert_eq!(MarketDiscovery::<()>::get_market_tokens(&numeric), Ok(("u".to_string(), "d".to_string())));
    let lower = vec![tok("down", "d", false), tok("up", "u", false), tok("Yes", "y", false)];
    assert_eq!(MarketDiscovery::<()>::get_market_tokens(&lower), Ok(("u".to_string(), "d".to_string())));
}

#[test]
fn market_tokens_missing_side() {
    let only_down = vec![tok("Down", "b", false)];
    assert_eq!(MarketDiscovery::<()>::get_market_tokens(&only_down), Err(DiscoveryError::UpTokenNotFound));
    let only_up = vec![tok("UP", "a", false), tok("Yes", "y", false)];
    assert_eq!(MarketDiscovery::<()>::get_market_tokens(&only_up), Err(DiscoveryError::DownTokenNotFound));
}

#[test]
fn discovery_holds_client() {
    let d = MarketDiscovery::new(7u8);
    assert_eq!(d.api, 7);
}

#[test]
fn slugs_from_lowercased_tickers_and_calendar_fields() {
    assert_eq!(updown_slug("sol", 1_771_007_400), "sol-updown-15m-1771007400");
    assert_eq!(updown_slug("SOL", 0), "SOL-updown-15m-0");
    assert_eq!(polymarket_arbitrage_bot::discovery::hourly_slug("bitcoin", 3, 5, 13), "bitcoin-up-or-down-march-5-1pm-et");
    assert_eq!(polymarket_arbitrage_bot::discovery::hourly_slug("xrp", 11, 2, 0), "xrp-up-or-down-november-2-12am-et");
    assert_eq!(polymarket_arbitrage_bot::discovery::hourly_slug("ethereum", 12, 31, 12), "ethereum-up-or-down-december-31-12pm-et");
    assert_eq!(polymarket_arbitrage_bot::discovery::hourly_slug("solana", 7, 4, 11), "solana-up-or-down-july-4-11am-et");
}

#[test]
fn outcome_labels_name_sides() {
    assert_eq!(outcome_side("UP"), Some(Side::Up));
    assert_eq!(outcome_side("1"), Some(Side::Up));
    assert_eq!(outcome_side("DOWN"), Some(Side::Down));
    assert_eq!(outcome_side("0"), Some(Side::Down));
    assert_eq!(outcome_side("YES"), None);
    assert_eq!(outcome_side("Up"), None);
    assert_eq!(outcome_side("UPDOWN"), Some(Side::Up));
}

#[test]
fn hourly_market_names_of_tickers() {
    assert_eq!(asset_slug("BTC"), Some("bitcoin"));
    assert_eq!(asset_slug("ETH"), Some("ethereum"));
    assert_eq!(asset_slug("SOL"), Some("solana"));
    assert_eq!(asset_slug("XRP"), Some("xrp"));
    assert_eq!(asset_slug("btc"), None);
    assert_eq!(asset_slug("DOGE"), None);
}

#[test]
fn tick_commit_touches_one_asset() {
    let mut st = PreLimitStrategy::new(Config::default().strategy);
    let st_of = |a: &str, c: &str| polymarket_arbitrage_bot::state::PreLimitOrderState::opened(
        a.to_string(), c.to_string(), "u".to_string(), "d".to_string(), None, None,
        450_000, 450_000, 5_000_000, 1_771_007_400, 1_771_007_300, None);
    st.commit_tick("BTC", Some(st_of("BTC", "0xb")), None);
    st.commit_tick("ETH", Some(st_of("ETH", "0xe")), None);
    assert!(st.commit_tick("BTC", None, Some(trade(1_000_000, 1_000_000, 450_000, 450_000))));
    assert!(st.states.get("BTC").is_none());
    assert_eq!(st.states.get("ETH").unwrap().condition_id, "0xe");
    assert!(st.ledger.trades.get("0xabc").is_some());
    assert!(!st.commit_tick("SOL", None, Some(trade(-1, 0, 0, 0))));
    assert_eq!(st.ledger.trades.len(), 1);
    assert_eq!(st.states.len(), 1);
}

#[test]
fn settlement_redeems_the_winning_leg() {
    let mut st = PreLimitStrategy::new(Config::default().strategy);
    st.ledger.register("0xabc".to_string(), trade(10_000_000, 10_000_000, 450_000, 450_000));
    let closed = MarketDetails {
        condition_id: "0xabc".to_string(),
        question: "q".to_string(),
        tokens: vec![tok("Up", "UPT", false), tok("Down", "DNT", true)],
        active: false,
        closed: true,
        end_date_iso: "".to_string(),
    };
    let rep = st.settle_market("0xabc", &closed).unwrap();
    assert_eq!(rep.redeem, Some(("DNT".to_string(), Side::Down)));
    let mut sim_cfg = Config::default().strategy;
    sim_cfg.simulation_mode = true;
    let mut sim = PreLimitStrategy::new(sim_cfg);
    sim.ledger.register("0xabc".to_string(), trade(10_000_000, 10_000_000, 450_000, 450_000));
    assert_eq!(sim.settle_market("0xabc", &closed).unwrap().redeem, None);
}

#[test]
fn replaced_or_expired_straddle_is_registered() {
    let mut st = PreLimitStrategy::new(Config::default().strategy);
    let open = |c: &str, period: i64| polymarket_arbitrage_bot::state::PreLimitOrderState::opened(
        "BTC".to_string(), c.to_string(), "u".to_string(), "d".to_string(), None, None,
        450_000, 450_000, 5_000_000, period, period - 100, None);
    let mut held = open("0x1", 1_771_007_400);
    held.up_matched = true;
    held.down_matched = true;
    st.replace_state("BTC", held);
    assert!(st.ledger.trades.get("0x1").is_none());
    assert!(st.replace_state("BTC", open("0x2", 1_771_008_300)));
    assert_eq!(st.ledger.trades.get("0x1").unwrap().up_shares, 5_000_000);
    assert_eq!(st.states.get("BTC").unwrap().condition_id, "0x2");
    let mut s = open("0x3", 1_771_009_200);
    s.up_matched = true;
    s.down_matched = true;
    let expiry = s.expiry;
    let out = st.finish_asset("BTC", s, expiry + 1);
    assert!(out.expired);
    assert!(st.states.get("BTC").is_none());
    assert_eq!(st.ledger.trades.get("0x3").unwrap().down_avg_price, 450_000);
}
