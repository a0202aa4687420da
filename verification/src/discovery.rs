//! Market discovery: period boundaries in Eastern time, market slugs, and
//! the Up/Down tokens of a market.
use vstd::prelude::*;
use crate::models::MarketToken;
use crate::state::{MARKET_DURATION_SECS, Side};
use crate::text::{self, dec_int, str_lowercase, str_uppercase, contains_seq};
use crate::units::trunc_div;
use chrono::{Datelike, TimeZone, Timelike};

verus! {

/// The name the hourly markets of a ticker are listed under: BTC bitcoin,
/// ETH ethereum, SOL solana, XRP xrp.
pub open spec fn spec_asset_slug(ticker: Seq<char>) -> Option<Seq<char>> {
    if ticker == "BTC"@ {
        Some("bitcoin"@)
    } else if ticker == "ETH"@ {
        Some("ethereum"@)
    } else if ticker == "SOL"@ {
        Some("solana"@)
    } else if ticker == "XRP"@ {
        Some("xrp"@)
    } else {
        None
    }
}

/// The name the hourly markets of a ticker are listed under (see
/// [`spec_asset_slug`]).
pub fn asset_slug(ticker: &str) -> (r: Option<&'static str>)
    ensures
        r is None <==> spec_asset_slug(ticker@) is None,
        r matches Some(name) ==> spec_asset_slug(ticker@) == Some(name@),
{
    if text::str_eq(ticker, "BTC") {
        Some("bitcoin")
    } else if text::str_eq(ticker, "ETH") {
        Some("ethereum")
    } else if text::str_eq(ticker, "SOL") {
        Some("solana")
    } else if text::str_eq(ticker, "XRP") {
        Some("xrp")
    } else {
        None
    }
}

/// The earliest Unix timestamp chrono can place on a calendar: the start of
/// January 1 of year -262143, UTC.
pub const MIN_CALENDAR_SECS: i64 = -8_334_601_315_200;

/// The latest Unix timestamp chrono can place on a calendar: the last
/// second of December 31 of year 262142, UTC.
pub const MAX_CALENDAR_SECS: i64 = 8_210_266_876_799;

/// The month (1 to 12) in New York time of a Unix timestamp.
pub uninterp spec fn ny_month(ts: i64) -> u32;

/// The day of the month (1 to 31) in New York time of a Unix timestamp.
pub uninterp spec fn ny_day(ts: i64) -> u32;

/// The hour (0 to 23) in New York time of a Unix timestamp.
pub uninterp spec fn ny_hour(ts: i64) -> u32;

/// The start of the New York local hour that contains a Unix timestamp,
/// when that local hour maps to exactly one instant.
pub uninterp spec fn ny_hour_start(ts: i64) -> Option<i64>;

/// Calls chrono-tz's `New_York.timestamp_opt(ts, 0)` and chrono's
/// `Datelike::month`: the New York month of `ts`, from 1 to 12 as chrono
/// documents. `timestamp_opt` yields a single date for any timestamp within
/// chrono's date range, from [`MIN_CALENDAR_SECS`] to [`MAX_CALENDAR_SECS`].
#[verifier::external_body]
fn ny_month_of(ts: i64) -> (m: u32)
    requires
        MIN_CALENDAR_SECS <= ts <= MAX_CALENDAR_SECS,
    ensures
        m == ny_month(ts),
        1 <= m <= 12,
{
    chrono_tz::America::New_York.timestamp_opt(ts, 0).single().unwrap().month()
}

/// Calls chrono-tz's `New_York.timestamp_opt(ts, 0)` and chrono's
/// `Datelike::day`: the New York day of the month of `ts`, 1 to 31.
#[verifier::external_body]
fn ny_day_of(ts: i64) -> (d: u32)
    requires
        MIN_CALENDAR_SECS <= ts <= MAX_CALENDAR_SECS,
    ensures
        d == ny_day(ts),
        1 <= d <= 31,
{
    chrono_tz::America::New_York.timestamp_opt(ts, 0).single().unwrap().day()
}

/// Calls chrono-tz's `New_York.timestamp_opt(ts, 0)` and chrono's
/// `Timelike::hour`: the New York hour of `ts`, 0 to 23.
#[verifier::external_body]
fn ny_hour_of(ts: i64) -> (h: u32)
    requires
        MIN_CALENDAR_SECS <= ts <= MAX_CALENDAR_SECS,
    ensures
        h == ny_hour(ts),
        h <= 23,
{
    chrono_tz::America::New_York.timestamp_opt(ts, 0).single().unwrap().hour()
}

/// Calls chrono-tz's `New_York.with_ymd_and_hms(..).single()` on the New
/// York year, month, day and hour of `ts` (with minute and second 0): the
/// start of that local hour, `None` when the local hour is ambiguous or
/// skipped by a clock change. Nothing more is stated of it.
#[verifier::external_body]
fn ny_hour_start_of(ts: i64) -> (r: Option<i64>)
    requires
        MIN_CALENDAR_SECS <= ts <= MAX_CALENDAR_SECS,
    ensures
        r == ny_hour_start(ts),
{
    let t = chrono_tz::America::New_York.timestamp_opt(ts, 0).single().unwrap();
    chrono_tz::America::New_York
        .with_ymd_and_hms(t.year(), t.month(), t.day(), t.hour(), 0, 0)
        .single()
        .map(|d| d.timestamp())
}

/// The start of the New York hour containing `t`: `None` when that local
/// hour is ambiguous or skipped by a clock change, or when `t` lies beyond
/// chrono's range, [`MIN_CALENDAR_SECS`] to [`MAX_CALENDAR_SECS`].
pub open spec fn hour_start_reading(t: i64) -> Option<i64> {
    if MIN_CALENDAR_SECS <= t <= MAX_CALENDAR_SECS {
        ny_hour_start(t)
    } else {
        None
    }
}

/// Calls chrono's `Utc::now()`, viewed in New York time, and returns its
/// Unix timestamp. It reads the clock: all that is stated is that the
/// reading is not before 1970, since `Utc::now` stops with a panic on a
/// system clock set earlier than that.
#[verifier::external_body]
pub(crate) fn now_timestamp() -> (t: i64)
    ensures
        t >= 0,
{
    chrono::Utc::now().with_timezone(&chrono_tz::America::New_York).timestamp()
}

/// The current Unix time, in seconds (read in Eastern time; a Unix
/// timestamp does not depend on the zone).
pub fn get_current_time_et() -> (t: i64)
    ensures
        t >= 0,
{
    now_timestamp()
}

/// The start of the 15-minute period containing `t`: `t` rounded toward
/// zero to a multiple of 900 seconds.
pub open spec fn spec_period_start(t: int) -> int {
    trunc_div(t, MARKET_DURATION_SECS as int) * MARKET_DURATION_SECS
}

/// `p` is the start of the quarter-hour containing the clock reading `t`:
/// `t` rounded toward zero to 900 seconds, which for a reading at or after
/// 1970 is a multiple of 900 at most `t` and less than 900 before it.
pub open spec fn period_of_reading(p: i64, t: i64) -> bool {
    &&& p == spec_period_start(t as int)
    &&& t >= 0 ==> p % 900 == 0 && p <= t && t < p + 900
}

/// The start of the 15-minute period containing `t`.
pub fn period_start_of(t: i64) -> (p: i64)
    ensures
        p == spec_period_start(t as int),
{
    (t / MARKET_DURATION_SECS) * MARKET_DURATION_SECS
}

/// The start of the current 15-minute period (see [`MarketDiscovery`]).
pub fn get_current_15m_period_et() -> (p: i64)
    ensures
        exists|t: i64| t >= 0 && #[trigger] period_of_reading(p, t),
{
    MarketDiscovery::current_15m_period_start_et()
}

/// The month name used in hourly market slugs (January for an impossible
/// month).
pub open spec fn month_name(m: u32) -> Seq<char> {
    if m == 1 { "january"@ }
    else if m == 2 { "february"@ }
    else if m == 3 { "march"@ }
    else if m == 4 { "april"@ }
    else if m == 5 { "may"@ }
    else if m == 6 { "june"@ }
    else if m == 7 { "july"@ }
    else if m == 8 { "august"@ }
    else if m == 9 { "september"@ }
    else if m == 10 { "october"@ }
    else if m == 11 { "november"@ }
    else if m == 12 { "december"@ }
    else { "january"@ }
}

/// The hour on a 12-hour clock with its am/pm suffix.
pub open spec fn hour12(h: u32) -> (u32, Seq<char>) {
    if h == 0 {
        (12, "am"@)
    } else if 1 <= h <= 11 {
        (h, "am"@)
    } else if h == 12 {
        (12, "pm"@)
    } else {
        ((h - 12) as u32, "pm"@)
    }
}

/// The slug of a 15-minute market from the lowercased ticker:
/// `{ticker}-updown-15m-{period start}`.
pub open spec fn spec_updown_slug(lower_ticker: Seq<char>, period_start: int) -> Seq<char> {
    lower_ticker + "-updown-15m-"@ + dec_int(period_start)
}

/// The slug of a 15-minute market: `{ticker, lowercased}-updown-15m-{period start}`.
pub open spec fn spec_15m_slug(ticker: Seq<char>, period_start: int) -> Seq<char> {
    spec_updown_slug(str_lowercase(ticker), period_start)
}

/// The slug of an hourly market from its local calendar fields:
/// `{asset slug}-up-or-down-{month}-{day}-{hour}{am|pm}-et`.
pub open spec fn spec_hourly_slug(asset_slug: Seq<char>, month: u32, day: u32, hour24: u32) -> Seq<char> {
    let (h, ampm) = hour12(hour24);
    asset_slug + "-up-or-down-"@ + month_name(month) + "-"@ + dec_int(day as int) + "-"@
        + dec_int(h as int) + ampm + "-et"@
}

/// The slug of an hourly market, in New York time.
pub open spec fn spec_1h_slug(asset_slug: Seq<char>, ts: i64) -> Seq<char> {
    spec_hourly_slug(asset_slug, ny_month(ts), ny_day(ts), ny_hour(ts))
}

/// The side an uppercased outcome label names: one containing "UP" or
/// being "1" is Up, else one containing "DOWN" or being "0" is Down.
pub open spec fn spec_outcome_side(upper_outcome: Seq<char>) -> Option<Side> {
    if contains_seq(upper_outcome, "UP"@) || upper_outcome == "1"@ {
        Some(Side::Up)
    } else if contains_seq(upper_outcome, "DOWN"@) || upper_outcome == "0"@ {
        Some(Side::Down)
    } else {
        None
    }
}

/// The Up and Down token ids found among `tokens`, scanning in order: a
/// token whose uppercased outcome contains "UP" or is "1" is the Up token,
/// else one containing "DOWN" or being "0" is the Down token; a later match
/// replaces an earlier one.
pub open spec fn spec_select_tokens(tokens: Seq<MarketToken>) -> (Option<Seq<char>>, Option<Seq<char>>)
    decreases tokens.len(),
{
    if tokens.len() == 0 {
        (None, None)
    } else {
        let (up, down) = spec_select_tokens(tokens.drop_last());
        let t = tokens.last();
        match spec_outcome_side(str_uppercase(t.outcome@)) {
            Some(Side::Up) => (Some(t.token_id@), down),
            Some(Side::Down) => (up, Some(t.token_id@)),
            None => (up, down),
        }
    }
}

/// The slug of a 15-minute market from the lowercased ticker (see
/// [`spec_updown_slug`]).
pub fn updown_slug(lower_ticker: &str, period_start_et: i64) -> (s: String)
    ensures
        s@ == spec_updown_slug(lower_ticker@, period_start_et as int),
{
    let mut s = lower_ticker.to_string();
    s.append("-updown-15m-");
    let digits = text::dec_i64(period_start_et);
    text::push_chars(&mut s, &digits);
    s
}

/// The slug of an hourly market from its local month, day and hour (see
/// [`spec_hourly_slug`]).
pub fn hourly_slug(asset_slug: &str, month: u32, day: u32, hour24: u32) -> (s: String)
    ensures
        s@ == spec_hourly_slug(asset_slug@, month, day, hour24),
{
    let month_str = if month == 1 { "january" }
        else if month == 2 { "february" }
        else if month == 3 { "march" }
        else if month == 4 { "april" }
        else if month == 5 { "may" }
        else if month == 6 { "june" }
        else if month == 7 { "july" }
        else if month == 8 { "august" }
        else if month == 9 { "september" }
        else if month == 10 { "october" }
        else if month == 11 { "november" }
        else if month == 12 { "december" }
        else { "january" };
    let (h12, am_pm): (u32, &str) = if hour24 == 0 {
        (12, "am")
    } else if 1 <= hour24 && hour24 <= 11 {
        (hour24, "am")
    } else if hour24 == 12 {
        (12, "pm")
    } else {
        (hour24 - 12, "pm")
    };
    let mut s = asset_slug.to_string();
    s.append("-up-or-down-");
    s.append(month_str);
    s.append("-");
    text::push_chars(&mut s, &text::dec_i64(day as i64));
    s.append("-");
    text::push_chars(&mut s, &text::dec_i64(h12 as i64));
    s.append(am_pm);
    s.append("-et");
    s
}

/// The side an uppercased outcome label names (see [`spec_outcome_side`]).
pub fn outcome_side(upper_outcome: &str) -> (r: Option<Side>)
    ensures
        r == spec_outcome_side(upper_outcome@),
{
    if text::str_contains(upper_outcome, "UP") || text::str_eq(upper_outcome, "1") {
        Some(Side::Up)
    } else if text::str_contains(upper_outcome, "DOWN") || text::str_eq(upper_outcome, "0") {
        Some(Side::Down)
    } else {
        None
    }
}

/// Why a market's tokens could not be told apart.
#[derive(PartialEq, Eq, Structural, Clone, Copy, Debug)]
pub enum DiscoveryError {
    UpTokenNotFound,
    DownTokenNotFound,
}

/// Finds markets and their tokens through an exchange client `A`.
pub struct MarketDiscovery<A> {
    pub api: A,
}

impl<A> MarketDiscovery<A> {
    /// A discovery over the given client.
    pub fn new(api: A) -> (d: Self)
        ensures
            d.api == api,
    {
        MarketDiscovery { api }
    }

    /// The Up and Down token ids of a market, from its tokens as the
    /// exchange lists them (see [`spec_select_tokens`]).
    pub fn get_market_tokens(tokens: &Vec<MarketToken>) -> (r: Result<(String, String), DiscoveryError>)
        ensures
            ({
                let (up, down) = spec_select_tokens(tokens@);
                match r {
                    Ok(p) => up == Some(p.0@) && down == Some(p.1@),
                    Err(e) => (up is None && e == DiscoveryError::UpTokenNotFound)
                        || (up is Some && down is None && e == DiscoveryError::DownTokenNotFound),
                }
            }),
    {
        let mut up: Option<String> = None;
        let mut down: Option<String> = None;
        let mut i: usize = 0;
        while i < tokens.len()
            invariant
                i <= tokens.len(),
                ({
                    let (su, sd) = spec_select_tokens(tokens@.subrange(0, i as int));
                    &&& su == (match up { Some(s) => Some(s@), None => None::<Seq<char>> })
                    &&& sd == (match down { Some(s) => Some(s@), None => None::<Seq<char>> })
                }),
            decreases tokens.len() - i,
        {
            let t = &tokens[i];
            let outcome = text::uppercase(t.outcome.as_str());
            assert(tokens@.subrange(0, i + 1).drop_last() =~= tokens@.subrange(0, i as int));
            assert(tokens@.subrange(0, i + 1).last() == tokens@[i as int]);
            match outcome_side(outcome.as_str()) {
                Some(Side::Up) => {
                    up = Some(t.token_id.clone());
                },
                Some(Side::Down) => {
                    down = Some(t.token_id.clone());
                },
                None => {},
            }
            i = i + 1;
        }
        assert(tokens@.subrange(0, tokens@.len() as int) =~= tokens@);
        match (up, down) {
            (None, _) => Err(DiscoveryError::UpTokenNotFound),
            (Some(_), None) => Err(DiscoveryError::DownTokenNotFound),
            (Some(u), Some(d)) => Ok((u, d)),
        }
    }
}

impl MarketDiscovery<()> {
    /// The slug of the 15-minute market of `asset_ticker` starting at
    /// `period_start_et`, e.g. `btc-updown-15m-1771007400`.
    pub fn build_15m_slug(asset_ticker: &str, period_start_et: i64) -> (s: String)
        ensures
            s@ == spec_15m_slug(asset_ticker@, period_start_et as int),
    {
        let lower = text::lowercase(asset_ticker);
        updown_slug(lower.as_str(), period_start_et)
    }

    /// The start of the current 15-minute period: the current time rounded
    /// down to :00, :15, :30 or :45.
    pub fn current_15m_period_start_et() -> (p: i64)
        ensures
            exists|t: i64| t >= 0 && #[trigger] period_of_reading(p, t),
    {
        let now = now_timestamp();
        let p = period_start_of(now);
        assert(period_of_reading(p, now));
        p
    }

    /// The slug of the hourly market of `asset_slug` for the hour starting
    /// at `period_start_et`, e.g. `bitcoin-up-or-down-march-5-2pm-et`.
    pub fn build_1h_slug(asset_slug: &str, period_start_et: i64) -> (s: String)
        requires
            MIN_CALENDAR_SECS <= period_start_et <= MAX_CALENDAR_SECS,
        ensures
            s@ == spec_1h_slug(asset_slug@, period_start_et),
            1 <= ny_month(period_start_et) <= 12,
            1 <= ny_day(period_start_et) <= 31,
            ny_hour(period_start_et) <= 23,
    {
        let month = ny_month_of(period_start_et);
        let day = ny_day_of(period_start_et);
        let hour24 = ny_hour_of(period_start_et);
        hourly_slug(asset_slug, month, day, hour24)
    }

    /// The start of the current New York hour as the clock reads now (see
    /// [`hour_start_reading`]).
    pub fn current_1h_period_start_et() -> (r: Option<i64>)
        ensures
            exists|t: i64| r == #[trigger] hour_start_reading(t),
    {
        let now = now_timestamp();
        if now < MIN_CALENDAR_SECS || now > MAX_CALENDAR_SECS {
            assert(hour_start_reading(now) is None);
            return None;
        }
        let r = ny_hour_start_of(now);
        assert(r == hour_start_reading(now));
        r
    }
}

} // verus!
