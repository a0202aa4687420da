//! The spot-price book fed by the exchange's trade stream, and the BTC move
//! read off its recent history.
use vstd::prelude::*;
use crate::keyed::KeyedVec;
use crate::text::{self, str_lowercase, str_uppercase, replaced};
use crate::units::SCALE;

verus! {

/// The highest spot price handled: one million dollars (in micros).
pub const MAX_SPOT_PRICE: i64 = 1_000_000_000_000;

/// How many BTC trades the history keeps.
pub const BTC_HISTORY_CAP: usize = 200;

/// The latest spot price of each asset and the recent BTC trades.
pub struct BinanceOracle {
    /// Latest price per asset ticker, in micros.
    pub prices: KeyedVec<i64>,
    /// Recent BTC trades as (time in milliseconds, price in micros), oldest
    /// first.
    pub btc_history: Vec<(u64, i64)>,
    /// The tickers whose trades are followed.
    pub assets: Vec<String>,
}

/// The BTC history after a trade: appended, then the oldest entry dropped
/// once more than [`BTC_HISTORY_CAP`] are held.
pub open spec fn history_after(h: Seq<(u64, i64)>, t: u64, p: i64) -> Seq<(u64, i64)> {
    let g = h.push((t, p));
    if g.len() > BTC_HISTORY_CAP { g.subrange(1, g.len() as int) } else { g }
}

/// The prices, in order, of the trades at or after `start`.
pub open spec fn window_prices(h: Seq<(u64, i64)>, start: u64) -> Seq<i64>
    decreases h.len(),
{
    if h.len() == 0 {
        Seq::empty()
    } else {
        let w = window_prices(h.drop_last(), start);
        if h.last().0 >= start { w.push(h.last().1) } else { w }
    }
}

/// The relative BTC move over the window ending at `now`, in millionths
/// rounded away from zero: `(last - first) / first` over the trades at or
/// after `now - window`;
/// none with fewer than two trades held or in the window. From a zero first
/// price a rise is unbounded and reads as `i64::MAX`, and no change is no
/// reading at all.
pub open spec fn spec_volatility(h: Seq<(u64, i64)>, window: u64, now: u64) -> Option<i64> {
    let w = window_prices(h, (now - window) as u64);
    if h.len() < 2 || w.len() < 2 {
        None
    } else if w[0] == 0 {
        if w.last() > 0 { Some(i64::MAX) } else { None }
    } else {
        Some(div_away(((w.last() - w[0]) * SCALE) as int, w[0] as int) as i64)
    }
}

/// Integer division rounding away from zero (for a positive divisor): the
/// result exceeds a whole number exactly when the true quotient does.
pub open spec fn div_away(a: int, b: int) -> int {
    if a >= 0 { (a + b - 1) / b } else { -((-a + b - 1) / b) }
}

/// The combined stream of aggregated trades of the given lowercased
/// tickers: `{ticker}usdt@aggTrade` joined by `/`.
pub open spec fn spec_stream_list(lowered: Seq<Seq<char>>) -> Seq<char>
    decreases lowered.len(),
{
    if lowered.len() == 0 {
        Seq::empty()
    } else if lowered.len() == 1 {
        lowered[0] + "usdt@aggTrade"@
    } else {
        spec_stream_list(lowered.drop_last()) + "/"@ + lowered.last() + "usdt@aggTrade"@
    }
}

/// The tickers, lowercased.
pub open spec fn lowered_tickers(assets: Seq<String>) -> Seq<Seq<char>> {
    assets.map_values(|a: String| str_lowercase(a@))
}

/// The combined stream of aggregated trades of the given tickers:
/// `{ticker, lowercased}usdt@aggTrade` joined by `/`.
pub open spec fn streams_of(assets: Seq<String>) -> Seq<char> {
    spec_stream_list(lowered_tickers(assets))
}

/// The combined trade stream of already lowercased tickers (see
/// [`spec_stream_list`]).
pub fn stream_list(lowered: &Vec<String>) -> (s: String)
    ensures
        s@ == spec_stream_list(lowered@.map_values(|a: String| a@)),
{
    let mut s = String::new();
    let mut i: usize = 0;
    while i < lowered.len()
        invariant
            i <= lowered@.len(),
            s@ == spec_stream_list(lowered@.subrange(0, i as int).map_values(|a: String| a@)),
        decreases lowered.len() - i,
    {
        let ghost prev = lowered@.subrange(0, i as int).map_values(|a: String| a@);
        let ghost next = lowered@.subrange(0, i + 1).map_values(|a: String| a@);
        if i > 0 {
            s.append("/");
        }
        s.append(lowered[i].as_str());
        s.append("usdt@aggTrade");
        assert(next.drop_last() =~= prev);
        assert(next.last() == lowered@[i as int]@);
        assert(next.len() == 1 ==> next[0] == lowered@[i as int]@);
        i = i + 1;
    }
    assert(lowered@.subrange(0, lowered@.len() as int).map_values(|a: String| a@) =~= lowered@.map_values(|a: String| a@));
    s
}

/// The characters before the first `@` (all of them when there is none).
pub open spec fn before_at(s: Seq<char>) -> Seq<char>
    decreases s.len(),
{
    if s.len() == 0 {
        s
    } else if s[0] == '@' {
        Seq::empty()
    } else {
        seq![s[0]] + before_at(s.drop_first())
    }
}

/// The BTC move over the last `window_ms` milliseconds when the clock
/// reads `now_ms`: none when the clock reads earlier than the window's
/// length, else [`spec_volatility`].
pub open spec fn volatility_reading(h: Seq<(u64, i64)>, window_ms: u64, now_ms: u64) -> Option<i64> {
    if window_ms <= now_ms {
        spec_volatility(h, window_ms, now_ms)
    } else {
        None
    }
}

/// What one trade of the stream `stream` at the price text `price_text`
/// does to the book, `recorded` telling whether it was taken: the ticker is
/// the part of the stream name before `@`, uppercased, without `USDT`; a
/// price that reads (see [`crate::decimal::spec_parse_micros`]) within
/// `[0, MAX_SPOT_PRICE]` becomes that ticker's price and, for BTC, joins the
/// history; anything else leaves the book as it was.
pub open spec fn trade_applied(
    before: BinanceOracle,
    after: BinanceOracle,
    recorded: bool,
    stream: Seq<char>,
    price_text: Seq<char>,
    now_ms: u64,
) -> bool {
    let asset = replaced(str_uppercase(before_at(stream)), "USDT"@, ""@);
    match crate::decimal::spec_parse_micros(price_text) {
        Some(p) => if 0 <= p <= MAX_SPOT_PRICE {
            &&& recorded
            &&& after.prices@ == before.prices@.insert(asset, p)
            &&& after.btc_history@ == (if asset == "BTC"@ {
                history_after(before.btc_history@, now_ms, p)
            } else {
                before.btc_history@
            })
        } else {
            !recorded && after == before
        },
        None => !recorded && after == before,
    }
}

/// What a text frame of the combined stream carries: its `stream` name and
/// its trade's price text `data.p`, when the frame is JSON holding both as
/// strings.
pub uninterp spec fn trade_frame_fields(text: Seq<char>) -> Option<(Seq<char>, Seq<char>)>;

/// Calls serde_json's `from_str::<Value>` on a frame and reads the strings
/// at `stream` and `data.p` with `Value`'s indexing and `as_str`: both, or
/// nothing when the text is not JSON or either is missing or not a string.
/// The result depends on the text alone and is named
/// [`trade_frame_fields`].
#[verifier::external_body]
pub(crate) fn decode_trade_frame(text: &str) -> (r: Option<(String, String)>)
    ensures
        r matches Some(f) ==> trade_frame_fields(text@) == Some((f.0@, f.1@)),
        r is None ==> trade_frame_fields(text@) is None,
{
    let v: serde_json::Value = match serde_json::from_str(text) {
        Ok(v) => v,
        Err(_) => return None,
    };
    match (v["stream"].as_str(), v["data"]["p"].as_str()) {
        (Some(stream), Some(price)) => Some((stream.to_string(), price.to_string())),
        _ => None,
    }
}

/// What `url::Url::parse` makes of a text, written back out by `as_str`;
/// none when the text is not a valid URL.
pub uninterp spec fn url_serialization(s: Seq<char>) -> Option<Seq<char>>;

/// Calls `url::Url::parse` and, on success, `Url::as_str`. The result
/// depends on the text alone and is named [`url_serialization`].
#[verifier::external_body]
fn parse_url(s: &str) -> (r: Option<String>)
    ensures
        r matches Some(u) ==> url_serialization(s@) == Some(u@),
        r is None ==> url_serialization(s@) is None,
{
    match url::Url::parse(s) {
        Ok(u) => Some(u.as_str().to_string()),
        Err(_) => None,
    }
}

/// The websocket address of the combined stream of the given tickers.
pub open spec fn spec_stream_url(assets: Seq<String>) -> Seq<char> {
    "wss://stream.binance.com:9443/stream?streams="@ + streams_of(assets)
}

/// Calls chrono's `Utc::now().timestamp_millis()`: the current time in
/// milliseconds. It reads the clock: nothing is stated of the result.
#[verifier::external_body]
fn now_millis() -> (t: u64) {
    chrono::Utc::now().timestamp_millis() as u64
}

impl BinanceOracle {
    /// The history length stays within its cap.
    pub open spec fn wf(&self) -> bool {
        &&& self.prices.wf()
        &&& self.btc_history@.len() <= BTC_HISTORY_CAP
        &&& forall|i: int| 0 <= i < self.btc_history@.len() ==> 0 <= #[trigger] self.btc_history@[i].1 <= MAX_SPOT_PRICE
    }

    /// An oracle for the given tickers, with no price yet.
    pub fn new(assets: Vec<String>) -> (o: Self)
        ensures
            o.wf(),
            o.prices@ == Map::<Seq<char>, i64>::empty(),
            o.btc_history@ == Seq::<(u64, i64)>::empty(),
            o.assets == assets,
    {
        BinanceOracle { prices: KeyedVec::new(), btc_history: Vec::new(), assets }
    }

    /// The latest price of `asset`, if one was seen.
    pub fn get_price(&self, asset: &str) -> (r: Option<i64>)
        requires
            self.wf(),
        ensures
            r == (if self.prices@.dom().contains(asset@) { Some(self.prices@[asset@]) } else { None::<i64> }),
    {
        match self.prices.get(asset) {
            Some(p) => Some(*p),
            None => None,
        }
    }

    /// Records a trade of `asset` at `price` seen at `now_ms`: the latest
    /// price is replaced, and a BTC trade joins the history.
    pub fn record_price(&mut self, asset: String, price: i64, now_ms: u64)
        requires
            old(self).wf(),
            asset@ == "BTC"@ ==> 0 <= price <= MAX_SPOT_PRICE,
        ensures
            final(self).wf(),
            final(self).prices@ == old(self).prices@.insert(asset@, price),
            final(self).btc_history@ == (if asset@ == "BTC"@ {
                history_after(old(self).btc_history@, now_ms, price)
            } else {
                old(self).btc_history@
            }),
            final(self).assets == old(self).assets,
    {
        let is_btc = text::str_eq(asset.as_str(), "BTC");
        self.prices.insert(asset, price);
        if is_btc {
            self.btc_history.push((now_ms, price));
            if self.btc_history.len() > BTC_HISTORY_CAP {
                self.btc_history.remove(0);
                assert(self.btc_history@ =~= history_after(old(self).btc_history@, now_ms, price));
            }
            assert forall|i: int| 0 <= i < self.btc_history@.len() implies 0 <= #[trigger] self.btc_history@[i].1 <= MAX_SPOT_PRICE by {
                let g = old(self).btc_history@.push((now_ms, price));
                if g.len() > BTC_HISTORY_CAP {
                    assert(self.btc_history@[i] == g[i + 1]);
                } else {
                    assert(self.btc_history@[i] == g[i]);
                }
            }
        }
    }

    /// The relative BTC move over the `window_ms` milliseconds ending at
    /// `now_ms` (see [`spec_volatility`]).
    pub fn btc_volatility_at(&self, window_ms: u64, now_ms: u64) -> (r: Option<i64>)
        requires
            window_ms <= now_ms,
            self.wf(),
        ensures
            r == spec_volatility(self.btc_history@, window_ms, now_ms),
    {
        let h = &self.btc_history;
        if h.len() < 2 {
            return None;
        }
        let start = now_ms - window_ms;
        let mut count: usize = 0;
        let mut first: i64 = 0;
        let mut last: i64 = 0;
        let mut i: usize = 0;
        while i < h.len()
            invariant
                i <= h@.len(),
                count <= i,
                start == now_ms - window_ms,
                forall|k: int| 0 <= k < h@.len() ==> 0 <= #[trigger] h@[k].1 <= MAX_SPOT_PRICE,
                ({
                    let w = window_prices(h@.subrange(0, i as int), start);
                    &&& count == w.len()
                    &&& count > 0 ==> first == w[0] && last == w.last()
                }),
            decreases h.len() - i,
        {
            let ghost w0 = window_prices(h@.subrange(0, i as int), start);
            assert(h@.subrange(0, i + 1).drop_last() =~= h@.subrange(0, i as int));
            assert(h@.subrange(0, i + 1).last() == h@[i as int]);
            if h[i].0 >= start {
                if count == 0 {
                    first = h[i].1;
                }
                last = h[i].1;
                count = count + 1;
                assert(window_prices(h@.subrange(0, i + 1), start) == w0.push(h@[i as int].1));
            }
            i = i + 1;
        }
        assert(h@.subrange(0, h@.len() as int) =~= h@);
        if count < 2 {
            return None;
        }
        let ghost w = window_prices(h@, start);
        proof {
            lemma_window_bounded(h@, start);
            assert(0 <= w[0] <= MAX_SPOT_PRICE);
            assert(0 <= w.last() <= MAX_SPOT_PRICE);
        }
        if first == 0 {
            return if last > 0 { Some(i64::MAX) } else { None };
        }
        let diff: i128 = ((last as i128) - (first as i128)) * (SCALE as i128);
        let f: i128 = first as i128;
        let q: i128 = if diff >= 0 { (diff + f - 1) / f } else { 0 - ((0 - diff + f - 1) / f) };
        proof {
            let d = diff as int;
            let fi = f as int;
            if d >= 0 {
                assert((d + fi - 1) / fi <= d + fi) by (nonlinear_arith)
                    requires d >= 0, fi >= 1;
            } else {
                assert((-d + fi - 1) / fi <= -d + fi) by (nonlinear_arith)
                    requires -d >= 0, fi >= 1;
            }
        }
        Some(q as i64)
    }

    /// The relative BTC move over the last `window_ms` milliseconds as the
    /// clock reads now (see [`volatility_reading`]).
    pub fn get_btc_volatility(&self, window_ms: u64) -> (r: Option<i64>)
        requires
            self.wf(),
        ensures
            exists|now: u64| r == #[trigger] volatility_reading(self.btc_history@, window_ms, now),
    {
        let now = now_millis();
        if window_ms > now {
            assert(volatility_reading(self.btc_history@, window_ms, now) is None);
            return None;
        }
        let r = self.btc_volatility_at(window_ms, now);
        assert(r == volatility_reading(self.btc_history@, window_ms, now));
        r
    }

    /// Takes in one trade message of the stream: the asset named by the
    /// stream (see [`asset_of_stream`]) gets the price read from its text
    /// (see [`crate::decimal::parse_micros`]). A price that does not read,
    /// or lies outside `[0, MAX_SPOT_PRICE]`, is ignored. Returns whether it
    /// was recorded.
    pub fn on_trade(&mut self, stream: &str, price_text: &str, now_ms: u64) -> (recorded: bool)
        requires
            old(self).wf(),
        ensures
            final(self).wf(),
            final(self).assets == old(self).assets,
            trade_applied(*old(self), *final(self), recorded, stream@, price_text@, now_ms),
    {
        let asset = asset_of_stream(stream);
        match crate::decimal::parse_micros(price_text) {
            Some(p) => {
                if 0 <= p && p <= MAX_SPOT_PRICE {
                    self.record_price(asset, p, now_ms);
                    true
                } else {
                    false
                }
            },
            None => false,
        }
    }

    /// The combined trade stream of the followed tickers (see [`streams_of`]).
    pub fn streams(&self) -> (s: String)
        ensures
            s@ == streams_of(self.assets@),
    {
        let mut lowered: Vec<String> = Vec::new();
        let mut i: usize = 0;
        while i < self.assets.len()
            invariant
                i <= self.assets@.len(),
                lowered@.len() == i,
                forall|k: int| 0 <= k < i ==> #[trigger] lowered@[k]@ == str_lowercase(self.assets@[k]@),
            decreases self.assets.len() - i,
        {
            lowered.push(text::lowercase(self.assets[i].as_str()));
            i = i + 1;
        }
        let s = stream_list(&lowered);
        assert(lowered@.map_values(|a: String| a@) =~= lowered_tickers(self.assets@));
        s
    }

    /// The websocket address of the combined stream.
    pub fn stream_url(&self) -> (s: String)
        ensures
            s@ == spec_stream_url(self.assets@),
    {
        let mut s = "wss://stream.binance.com:9443/stream?streams=".to_string();
        let t = self.streams();
        s.append(t.as_str());
        s
    }

    /// The address to connect to: the stream address as the URL parser
    /// reads it back, none when it does not parse.
    pub fn connect_address(&self) -> (r: Option<String>)
        ensures
            r matches Some(u) ==> url_serialization(spec_stream_url(self.assets@)) == Some(u@),
            r is None ==> url_serialization(spec_stream_url(self.assets@)) is None,
    {
        let s = self.stream_url();
        parse_url(s.as_str())
    }

    /// Takes in one text frame of the combined stream: a trade frame's
    /// stream name and price go to [`BinanceOracle::on_trade`]; any other
    /// frame changes nothing. Returns whether a price was recorded.
    pub fn on_frame(&mut self, text: &str, now_ms: u64) -> (recorded: bool)
        requires
            old(self).wf(),
        ensures
            final(self).wf(),
            final(self).assets == old(self).assets,
            trade_frame_fields(text@) is None ==> !recorded && *final(self) == *old(self),
            trade_frame_fields(text@) matches Some(f)
                ==> trade_applied(*old(self), *final(self), recorded, f.0, f.1, now_ms),
    {
        match decode_trade_frame(text) {
            Some((stream, price)) => self.on_trade(stream.as_str(), price.as_str(), now_ms),
            None => false,
        }
    }
}

proof fn lemma_window_bounded(h: Seq<(u64, i64)>, start: u64)
    requires
        forall|i: int| 0 <= i < h.len() ==> 0 <= #[trigger] h[i].1 <= MAX_SPOT_PRICE,
    ensures
        forall|i: int| 0 <= i < window_prices(h, start).len() ==> 0 <= #[trigger] window_prices(h, start)[i] <= MAX_SPOT_PRICE,
    decreases h.len(),
{
    if h.len() > 0 {
        let d = h.drop_last();
        assert forall|i: int| 0 <= i < d.len() implies 0 <= #[trigger] d[i].1 <= MAX_SPOT_PRICE by {
            assert(d[i] == h[i]);
        }
        lemma_window_bounded(d, start);
        let w = window_prices(d, start);
        if h.last().0 >= start {
            assert(window_prices(h, start) == w.push(h.last().1));
            assert forall|i: int| 0 <= i < window_prices(h, start).len() implies 0 <= #[trigger] window_prices(h, start)[i] <= MAX_SPOT_PRICE by {
                if i < w.len() {
                    assert(window_prices(h, start)[i] == w[i]);
                } else {
                    assert(h.last() == h[h.len() - 1]);
                }
            }
        }
    }
}

/// The ticker a stream name is about: the part before `@`, uppercased,
/// with `USDT` removed (`btcusdt@aggTrade` is `BTC`).
pub fn asset_of_stream(stream: &str) -> (a: String)
    ensures
        a@ == replaced(str_uppercase(before_at(stream@)), "USDT"@, ""@),
{
    let cs = text::chars_of(stream);
    let mut head: Vec<char> = Vec::new();
    let mut i: usize = 0;
    assert(stream@.subrange(0, stream@.len() as int) =~= stream@);
    assert(head@ + stream@ =~= stream@);
    while i < cs.len() && cs[i] != '@'
        invariant
            cs@ == stream@,
            i <= cs@.len(),
            head@ == cs@.subrange(0, i as int),
            forall|k: int| 0 <= k < i ==> cs@[k] != '@',
            before_at(stream@) == head@ + before_at(stream@.subrange(i as int, stream@.len() as int)),
        decreases cs.len() - i,
    {
        let ghost rest = stream@.subrange(i as int, stream@.len() as int);
        assert(rest.drop_first() =~= stream@.subrange(i + 1, stream@.len() as int));
        head.push(cs[i]);
        i = i + 1;
        assert(head@ =~= cs@.subrange(0, i as int));
        assert(before_at(rest) == seq![rest[0]] + before_at(rest.drop_first()));
        assert(before_at(stream@) =~= head@ + before_at(stream@.subrange(i as int, stream@.len() as int)));
    }
    assert(before_at(stream@.subrange(i as int, stream@.len() as int)) =~= Seq::<char>::empty()) by {
        let rest = stream@.subrange(i as int, stream@.len() as int);
        if rest.len() > 0 {
            assert(rest[0] == '@');
        }
    }
    assert(before_at(stream@) =~= head@);
    let h = text::string_of(&head);
    let upper = text::uppercase(h.as_str());
    proof {
        reveal_strlit("USDT");
    }
    text::replace_all(upper.as_str(), "USDT", "")
}

} // verus!
