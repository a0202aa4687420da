use polymarket_arbitrage_bot::decimal::parse_micros;
use polymarket_arbitrage_bot::text::{format_fixed4, format_micros, replace_all, str_contains, str_starts_with};
use polymarket_arbitrage_bot::units::{round_price, round_price_wide, value_of};

#[test]
fn round_price_rounds_half_cent_up() {
    assert_eq!(round_price(445_000), 450_000);
    assert_eq!(round_price(444_999), 440_000);
    assert_eq!(round_price(123_456), 120_000);
}

#[test]
fn round_price_clamps_to_order_range() {
    assert_eq!(round_price(0), 10_000);
    assert_eq!(round_price(-250_000), 10_000);
    assert_eq!(round_price(4_999), 10_000);
    assert_eq!(round_price(999_999), 990_000);
    assert_eq!(round_price(5_000_000), 990_000);
}

#[test]
fn round_price_is_idempotent_on_examples() {
    for p in [-7, 0, 12_345, 445_000, 555_555, 994_999, 1_000_000] {
        let r = round_price(p);
        assert_eq!(round_price(r), r);
        assert_eq!(r % 10_000, 0);
    }
}

#[test]
fn value_of_multiplies_in_micros() {
    assert_eq!(value_of(5_000_000, 450_000), 2_250_000);
    assert_eq!(value_of(1, 999_999), 0);
    assert_eq!(value_of(-3_000_000, 500_000), -1_500_000);
    assert_eq!(value_of(3, -500_000), -1);
}

#[test]
fn format_micros_writes_shortest_decimal() {
    assert_eq!(format_micros(5_000_000), "5");
    assert_eq!(format_micros(450_000), "0.45");
    assert_eq!(format_micros(-1_500_000), "-1.5");
    assert_eq!(format_micros(0), "0");
    assert_eq!(format_micros(1), "0.000001");
    assert_eq!(format_micros(25_000_000), "25");
    assert_eq!(format_micros(35_353_535), "35.353535");
}

#[test]
fn format_fixed4_rounds_to_four_decimals() {
    assert_eq!(format_fixed4(123_456), "0.1235");
    assert_eq!(format_fixed4(940_000), "0.9400");
    assert_eq!(format_fixed4(-50), "-0.0001");
    assert_eq!(format_fixed4(-49), "0.0000");
    assert_eq!(format_fixed4(12_000_000), "12.0000");
}

#[test]
fn parse_micros_reads_decimals() {
    assert_eq!(parse_micros("0.45"), Some(450_000));
    assert_eq!(parse_micros("60000.12"), Some(60_000_120_000));
    assert_eq!(parse_micros("-1.5"), Some(-1_500_000));
    assert_eq!(parse_micros("+2"), Some(2_000_000));
    assert_eq!(parse_micros("5."), Some(5_000_000));
    assert_eq!(parse_micros(".5"), Some(500_000));
    assert_eq!(parse_micros("1.2345675"), Some(1_234_568));
    assert_eq!(parse_micros("1.2345674999"), Some(1_234_567));
}

#[test]
fn parse_micros_rejects_other_text() {
    assert_eq!(parse_micros(""), None);
    assert_eq!(parse_micros("."), None);
    assert_eq!(parse_micros("-"), None);
    assert_eq!(parse_micros("abc"), None);
    assert_eq!(parse_micros("1e5"), None);
    assert_eq!(parse_micros("1.2.3"), None);
    assert_eq!(parse_micros("1234567890123"), None);
}

#[test]
fn substring_search() {
    assert!(str_contains("SELL_AT_DANGER_PRICE", "PRICE"));
    assert!(!str_contains("time", "price"));
    assert!(str_contains("abc", ""));
    assert!(!str_contains("ab", "abc"));
    assert!(str_starts_with("SIM-BUY-1", "SIM-"));
    assert!(!str_starts_with("0x12", "SIM-"));
}

#[test]
fn replace_all_scans_left_to_right() {
    assert_eq!(replace_all("BTCUSDT", "USDT", ""), "BTC");
    assert_eq!(replace_all("USDTUSDT", "USDT", ""), "");
    assert_eq!(replace_all("AUSDTBUSDT", "USDT", "-"), "A-B-");
    assert_eq!(replace_all("aaa", "aa", "b"), "ba");
    assert_eq!(replace_all("ETH", "USDT", ""), "ETH");
}

#[test]
fn round_price_wide_clamps_any_width() {
    assert_eq!(round_price_wide(445_000), 450_000);
    assert_eq!(round_price_wide(-10_000_000_000_000_000_000_000), 10_000);
    assert_eq!(round_price_wide(10_000_000_000_000_000_000_000), 990_000);
    assert_eq!(round_price_wide(1_000_000), 990_000);
    assert_eq!(round_price_wide(0), 10_000);
}
