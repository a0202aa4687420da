use polymarket_arbitrage_bot::ai::{next_decision, ollama_request, AiAction, AiContext, AiDecision, AiReply};
use polymarket_arbitrage_bot::closure::settle;
use polymarket_arbitrage_bot::config::Config;
use polymarket_arbitrage_bot::hedger::HyperliquidHedger;
use polymarket_arbitrage_bot::legacy::{
    legacy_apply_fills, legacy_apply_loser_sale, legacy_apply_price_fills, legacy_decide_preorder, legacy_holding_both, legacy_holding_winner, legacy_limit_order_request,
    legacy_market_started, legacy_mid_market_quote, legacy_needs_danger_handling, legacy_plan_loser_sale,
    legacy_preorder_quote, legacy_redemption, legacy_risk_mode, legacy_risk_mode_of_lower, legacy_sale_loss, legacy_should_sell_early,
    legacy_should_seek_preorders, legacy_simulated_order_response,
};
use polymarket_arbitrage_bot::models::MarketToken;
use polymarket_arbitrage_bot::oracle::{asset_of_stream, stream_list, BinanceOracle};
use polymarket_arbitrage_bot::processor::{Quote, RiskMode};
use polymarket_arbitrage_bot::redeem::{next_redeem_side, normalize_condition_id, redeem_proxy, RedeemError, RedeemTally};
use polymarket_arbitrage_bot::signals::MarketSignal;
use polymarket_arbitrage_bot::state::{CycleTrade, PreLimitOrderState, Side};

fn st() -> PreLimitOrderState {
    PreLimitOrderState::opened(
        "SOL".to_string(), "0xc".to_string(), "u".to_string(), "d".to_string(),
        Some("ou".to_string()), Some("od".to_string()), 450_000, 450_000, 5_000_000,
        1_771_008_300, 1_771_008_200, None)
}

#[test]
fn hedger_disabled_and_enabled() {
    let off = HyperliquidHedger::new(false, "".to_string(), "".to_string());
    assert_eq!(off.place_hedge_order("BTC", 1_000_000, "SHORT"), "HEDGING_DISABLED");
    assert_eq!(off.hedge_order_id(5), "HEDGING_DISABLED");
    let on = HyperliquidHedger::new(true, "k".to_string(), "p".to_string());
    assert_eq!(on.hedge_order_id(1_771_007_400), "HL-HEDGE-1771007400");
    assert!(on.place_hedge_order("BTC", 1_000_000, "SHORT").starts_with("HL-HEDGE-17"));
    on.close_hedge_order("BTC", 1_000_000, "BOTH");
}

#[test]
fn oracle_records_prices_and_history() {
    let mut o = BinanceOracle::new(vec!["BTC".to_string(), "ETH".to_string()]);
    assert_eq!(o.get_price("BTC"), None);
    assert!(o.on_trade("btcusdt@aggTrade", "60000.5", 1_000));
    assert!(o.on_trade("ethusdt@aggTrade", "3000", 1_001));
    assert!(!o.on_trade("ethusdt@aggTrade", "not-a-price", 1_002));
    assert_eq!(o.get_price("BTC"), Some(60_000_500_000));
    assert_eq!(o.get_price("ETH"), Some(3_000_000_000));
    assert_eq!(o.btc_history.len(), 1);
    assert_eq!(o.btc_volatility_at(1_000, 1_500), None);
    assert!(o.on_trade("btcusdt@aggTrade", "60300", 1_400));
    assert_eq!(o.btc_volatility_at(1_000, 1_500), Some(4_992));
    assert_eq!(o.btc_volatility_at(200, 1_500), None);
}

#[test]
fn oracle_history_is_capped() {
    let mut o = BinanceOracle::new(vec!["BTC".to_string()]);
    for i in 0..250u64 {
        o.record_price("BTC".to_string(), 1_000_000 + i as i64, i);
    }
    assert_eq!(o.btc_history.len(), 200);
    assert_eq!(o.btc_history[0], (50, 1_000_050));
    assert_eq!(o.btc_history[199], (249, 1_000_249));
}

#[test]
fn oracle_streams() {
    let o = BinanceOracle::new(vec!["BTC".to_string(), "Eth".to_string()]);
    assert_eq!(o.streams(), "btcusdt@aggTrade/ethusdt@aggTrade");
    assert_eq!(o.stream_url(), "wss://stream.binance.com:9443/stream?streams=btcusdt@aggTrade/ethusdt@aggTrade");
    assert_eq!(asset_of_stream("solusdt@aggTrade"), "SOL");
    assert_eq!(asset_of_stream("xrpusdt"), "XRP");
}

#[test]
fn ai_default_and_prompt() {
    let d = AiDecision::default();
    assert_eq!(d.action, AiAction::WAIT);
    assert_eq!(d.confidence, 0);
    let ctx = AiContext { asset: "BTC".to_string(), straddle_cost: 930_000, time_remaining_secs: 120, btc_volatility: 1_234 };
    let r = ollama_request(&ctx);
    assert_eq!(r.model, "gemma:2b");
    assert_eq!(r.format, "json");
    assert!(!r.stream);
    assert_eq!(
        r.prompt,
        "Analyze arbitrage: Asset:BTC Cost:$0.9300 Time:120s BTCVol:0.1234%.\nIf cost > 0.94 or time < 60s, output HALT.\nElse TRADE or WAIT.\nReply ONLY JSON: {\"action\":\"WAIT|TRADE|HALT\",\"confidence\":0-100}"
    );
}

#[test]
fn legacy_windows_and_quotes() {
    let c = Config::default().strategy;
    let p = 1_771_007_400;
    assert!(legacy_should_seek_preorders(&c, &None, p, p + 720));
    assert!(legacy_should_seek_preorders(&c, &None, p, p + 900));
    assert!(!legacy_should_seek_preorders(&c, &None, p, p + 719));
    assert_eq!(legacy_preorder_quote(&c), Quote { up_price: 450_000, down_price: 450_000, shares: 5_000_000 });
    let q = legacy_mid_market_quote(&c, 300_000, 700_000);
    assert_eq!(q, Quote { up_price: 300_000, down_price: 680_000, shares: 5_000_000 });
    let q2 = legacy_mid_market_quote(&c, 700_000, 300_000);
    assert_eq!(q2, Quote { up_price: 680_000, down_price: 300_000, shares: 5_000_000 });
}

#[test]
fn legacy_danger_handling_ignores_status() {
    let mut s = st();
    legacy_apply_fills(&mut s, true, false);
    assert_eq!(s.up_shares, 0);
    s.status = polymarket_arbitrage_bot::state::CycleStatus::WaitingForNextCycle;
    assert!(legacy_needs_danger_handling(&Some(s)));
}

#[test]
fn legacy_fills_and_start() {
    let mut s = st();
    assert!(!legacy_market_started(&s, 1_771_008_299));
    assert!(legacy_market_started(&s, 1_771_008_300));
    let r = legacy_apply_price_fills(&mut s, Some(440_000), Some(500_000));
    assert_eq!(r, (true, false));
    assert!(s.up_matched && !s.down_matched);
}

#[test]
fn legacy_loser_sale_uses_period_end() {
    let c = Config::default().strategy;
    let mut s = st();
    legacy_apply_fills(&mut s, true, true);
    let end = 1_771_008_300 + 900;
    assert!(legacy_plan_loser_sale(&c, &s, 750_000, 250_000, end - 700).is_none());
    let sale = legacy_plan_loser_sale(&c, &s, 750_000, 250_000, end - 600).unwrap();
    assert_eq!(sale, (Side::Up, "d".to_string(), 450_000));
    assert_eq!(legacy_sale_loss(&c, 450_000, 250_000), 1_000_000);
    let w = legacy_holding_winner(&s, Side::Down, 5_000_000);
    assert_eq!((w.up_shares, w.down_shares, w.down_avg_price), (0, 5_000_000, 450_000));
    let b = legacy_holding_both(&s, 5_000_000);
    assert_eq!((b.up_shares, b.down_shares), (5_000_000, 5_000_000));
}

#[test]
fn legacy_risk_modes_match_exactly() {
    let mut c = Config::default().strategy;
    c.signal.one_side_buy_risk_management = "SELL_AT_DANGER_PRICE".to_string();
    assert_eq!(legacy_risk_mode(&c), RiskMode::Price);
    c.signal.one_side_buy_risk_management = "Time".to_string();
    assert_eq!(legacy_risk_mode(&c), RiskMode::Time);
    c.signal.one_side_buy_risk_management = "timeout".to_string();
    assert_eq!(legacy_risk_mode(&c), RiskMode::Off);
}

#[test]
fn legacy_early_sale() {
    let mut c = Config::default().strategy;
    c.signal.danger_price = 280_000;
    c.signal.danger_time_passed = 10;
    let mut s = st();
    legacy_apply_fills(&mut s, false, true);
    s.one_side_matched_at = Some(1_000);
    assert!(legacy_should_sell_early(&c, RiskMode::Price, &s, Some(200_000), 1_100));
    assert!(!legacy_should_sell_early(&c, RiskMode::Price, &s, None, 1_100));
    assert!(legacy_should_sell_early(&c, RiskMode::Time, &s, None, 1_600));
    assert!(!legacy_should_sell_early(&c, RiskMode::Time, &s, None, 1_599));
}

#[test]
fn legacy_redemption_prefers_held_up() {
    let t = CycleTrade {
        condition_id: "c".to_string(), period_timestamp: 0, market_duration_secs: 900,
        up_token_id: Some("U".to_string()), down_token_id: Some("D".to_string()),
        up_shares: 0, down_shares: 5_000_000, up_avg_price: 0, down_avg_price: 450_000,
    };
    let toks = vec![MarketToken { outcome: "Up".to_string(), token_id: "U".to_string(), winner: true }];
    let s = settle(&t, &toks);
    assert_eq!(legacy_redemption(&t, &s, false), Some(("D".to_string(), Side::Down)));
    assert!(legacy_redemption(&t, &s, true).is_none());
}

#[test]
fn legacy_orders() {
    let c = Config::default().strategy;
    let r = legacy_simulated_order_response("BUY", 12);
    assert_eq!(r.order_id, Some("SIM-BUY-12".to_string()));
    assert_eq!(r.message, Some("Order simulated (not placed)".to_string()));
    let o = legacy_limit_order_request(&c, "t", "BUY", 450_000);
    assert_eq!(o.size, "5");
    assert_eq!(o.price, "0.45");
}

#[test]
fn redeem_helpers() {
    assert_eq!(normalize_condition_id("abc"), "0xabc");
    assert_eq!(normalize_condition_id("0xabc"), "0xabc");
    assert_eq!(redeem_proxy(&None), Err(RedeemError::MissingProxyWallet));
    let p = Some("0xproxy".to_string());
    assert_eq!(redeem_proxy(&p).unwrap(), "0xproxy");
    let mut t = RedeemTally::new();
    t.record(true, false);
    t.record(false, true);
    t.record(false, false);
    assert_eq!(t, RedeemTally { succeeded: 2, failed: 1 });
}

#[test]
fn legacy_risk_mode_from_lowercased_setting() {
    assert_eq!(legacy_risk_mode_of_lower("price"), RiskMode::Price);
    assert_eq!(legacy_risk_mode_of_lower("sell_after_danger_time_passed"), RiskMode::Time);
    assert_eq!(legacy_risk_mode_of_lower("time_or_price"), RiskMode::Off);
    assert_eq!(legacy_risk_mode_of_lower("Price"), RiskMode::Off);
}

#[test]
fn stream_list_of_lowercased_tickers() {
    assert_eq!(stream_list(&vec!["btc".to_string()]), "btcusdt@aggTrade");
    assert_eq!(
        stream_list(&vec!["btc".to_string(), "eth".to_string()]),
        "btcusdt@aggTrade/ethusdt@aggTrade"
    );
    assert_eq!(stream_list(&vec![]), "");
}

#[test]
fn legacy_loser_sale_merges_and_keeps_winner() {
    let mut s = st();
    legacy_apply_fills(&mut s, true, true);
    let t = legacy_apply_loser_sale(&mut s, Side::Up, 5_000_000);
    assert!(s.merged && !s.risk_sold);
    assert_eq!((t.up_shares, t.down_shares, t.up_avg_price, t.down_avg_price), (5_000_000, 0, 450_000, 0));
    assert_eq!(t.condition_id, "0xc");
}

#[test]
fn oracle_takes_trade_frames() {
    let mut o = BinanceOracle::new(vec!["BTC".to_string(), "SOL".to_string()]);
    let frame = r#"{"stream":"solusdt@aggTrade","data":{"e":"aggTrade","s":"SOLUSDT","p":"142.35000000","q":"1.2"}}"#;
    assert!(o.on_frame(frame, 5_000));
    assert_eq!(o.get_price("SOL"), Some(142_350_000));
    assert!(!o.on_frame("not json", 5_001));
    assert!(!o.on_frame(r#"{"stream":"btcusdt@aggTrade","data":{}}"#, 5_002));
    assert!(!o.on_frame(r#"{"stream":"btcusdt@aggTrade","data":{"p":61000}}"#, 5_003));
    assert_eq!(o.get_price("BTC"), None);
    assert!(o.on_frame(r#"{"stream":"btcusdt@aggTrade","data":{"p":"61000.1"}}"#, 5_004));
    assert_eq!(o.get_price("BTC"), Some(61_000_100_000));
    assert_eq!(o.btc_history.len(), 1);
}

#[test]
fn oracle_connect_address_parses() {
    let o = BinanceOracle::new(vec!["BTC".to_string(), "ETH".to_string()]);
    assert_eq!(
        o.connect_address(),
        Some("wss://stream.binance.com:9443/stream?streams=btcusdt@aggTrade/ethusdt@aggTrade".to_string())
    );
}

#[test]
fn volatility_from_zero_first_price() {
    let mut o = BinanceOracle::new(vec!["BTC".to_string()]);
    o.record_price("BTC".to_string(), 0, 1_000);
    o.record_price("BTC".to_string(), 0, 1_100);
    assert_eq!(o.btc_volatility_at(1_000, 1_500), None);
    o.record_price("BTC".to_string(), 5, 1_200);
    assert_eq!(o.btc_volatility_at(1_000, 1_500), Some(i64::MAX));
}

#[test]
fn legacy_preorders_need_good_signal() {
    let c = Config::default().strategy;
    let period = 1_771_007_400;
    let q = legacy_decide_preorder(&c, &None, MarketSignal::Good, period, period + 800).unwrap();
    assert_eq!(q, Quote { up_price: 450_000, down_price: 450_000, shares: 5_000_000 });
    assert!(legacy_decide_preorder(&c, &None, MarketSignal::Bad, period, period + 800).is_none());
    assert!(legacy_decide_preorder(&c, &None, MarketSignal::Good, period, period + 600).is_none());
}

#[test]
fn redeem_tries_down_only_after_up_fails() {
    assert_eq!(next_redeem_side(None), Some(Side::Up));
    assert_eq!(next_redeem_side(Some((Side::Up, false))), Some(Side::Down));
    assert_eq!(next_redeem_side(Some((Side::Up, true))), None);
    assert_eq!(next_redeem_side(Some((Side::Down, false))), None);
    assert_eq!(next_redeem_side(Some((Side::Down, true))), None);
}

#[test]
fn volatility_rounds_away_from_zero() {
    let mut o = BinanceOracle::new(vec!["BTC".to_string()]);
    o.record_price("BTC".to_string(), 40_000_000_000, 1_000);
    o.record_price("BTC".to_string(), 40_100_004_000, 1_100);
    assert_eq!(o.btc_volatility_at(1_000, 1_500), Some(2_501));
    o.record_price("BTC".to_string(), 39_899_996_000, 1_200);
    assert_eq!(o.btc_volatility_at(1_000, 1_500), Some(-2_501));
    o.record_price("BTC".to_string(), 40_100_000_000, 1_300);
    assert_eq!(o.btc_volatility_at(1_000, 1_500), Some(2_500));
}

#[test]
fn ai_decision_after_each_reply() {
    let cur = AiDecision { action: AiAction::TRADE, confidence: 80 };
    let new = AiDecision { action: AiAction::HALT, confidence: 95 };
    assert_eq!(next_decision(cur, AiReply::Decided(new)), new);
    assert_eq!(next_decision(cur, AiReply::Failed), AiDecision::default());
    assert_eq!(next_decision(cur, AiReply::Unanswered), cur);
}
