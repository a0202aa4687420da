//! Settlement of resolved markets: which side won, what the position paid,
//! and the running profit.
use vstd::prelude::*;
use crate::models::{MarketToken, token_won, is_winning_token};
use crate::state::{CycleTrade, Side};
use crate::units::{SCALE, MAX_AMOUNT, spec_value_of, value_of};
use crate::keyed::KeyedVec;

verus! {

/// The outcome of one resolved market for a held position.
#[derive(PartialEq, Eq, Structural, Clone, Copy, Debug)]
pub struct Settlement {
    pub up_wins: bool,
    pub down_wins: bool,
    /// What the position cost: shares times average price, both legs.
    pub total_cost: i64,
    /// What it pays: one dollar per share of the winning leg.
    pub payout: i64,
    /// `payout - total_cost`.
    pub pnl: i64,
}

impl CycleTrade {
    /// Share counts within range and prices in `[0, 1]`.
    pub open spec fn wf(&self) -> bool {
        &&& 0 <= self.up_shares <= MAX_AMOUNT
        &&& 0 <= self.down_shares <= MAX_AMOUNT
        &&& 0 <= self.up_avg_price <= SCALE
        &&& 0 <= self.down_avg_price <= SCALE
    }
}

/// The leg identified by `id` won.
pub open spec fn leg_won(tokens: Seq<MarketToken>, id: Option<String>) -> bool {
    match id {
        Some(i) => is_winning_token(tokens, i@),
        None => false,
    }
}

/// The settlement of `t` against the resolved tokens of its market: Up wins
/// if its token is marked winner, else Down if its token is; the payout is
/// one dollar per share of the winning leg (nothing when neither won).
pub open spec fn spec_settlement(t: CycleTrade, tokens: Seq<MarketToken>) -> Settlement {
    let up_wins = leg_won(tokens, t.up_token_id);
    let down_wins = leg_won(tokens, t.down_token_id);
    let cost = spec_value_of(t.up_shares as int, t.up_avg_price as int)
        + spec_value_of(t.down_shares as int, t.down_avg_price as int);
    let payout = if up_wins { t.up_shares as int } else if down_wins { t.down_shares as int } else { 0 };
    Settlement {
        up_wins,
        down_wins,
        total_cost: cost as i64,
        payout: payout as i64,
        pnl: (payout - cost) as i64,
    }
}

fn leg_result(tokens: &Vec<MarketToken>, id: &Option<String>) -> (r: bool)
    ensures
        r == leg_won(tokens@, *id),
{
    match id {
        Some(i) => token_won(tokens, i.as_str()),
        None => false,
    }
}

/// Settles a position against its resolved market.
pub fn settle(t: &CycleTrade, tokens: &Vec<MarketToken>) -> (s: Settlement)
    requires
        t.wf(),
    ensures
        s == spec_settlement(*t, tokens@),
        -2 * MAX_AMOUNT <= s.pnl <= MAX_AMOUNT,
{
    let up_wins = leg_result(tokens, &t.up_token_id);
    let down_wins = leg_result(tokens, &t.down_token_id);
    let cost = value_of(t.up_shares, t.up_avg_price) + value_of(t.down_shares, t.down_avg_price);
    let payout = if up_wins { t.up_shares } else if down_wins { t.down_shares } else { 0 };
    proof {
        assert(0 <= spec_value_of(t.up_shares as int, t.up_avg_price as int));
        assert(0 <= spec_value_of(t.down_shares as int, t.down_avg_price as int));
    }
    Settlement { up_wins, down_wins, total_cost: cost, payout, pnl: payout - cost }
}

/// A leg's token id, empty when unknown.
pub open spec fn token_or_empty(id: Option<String>) -> Seq<char> {
    match id {
        Some(i) => i@,
        None => Seq::<char>::empty(),
    }
}

/// The redemption due for a settled position when trading live: Up with
/// the Up token when Up won, else Down with the Down token when Down won;
/// none in simulation or when neither leg won.
pub open spec fn spec_redemption(t: CycleTrade, s: Settlement, simulation: bool) -> Option<(Seq<char>, Side)> {
    if simulation || !(s.up_wins || s.down_wins) {
        None
    } else if s.up_wins {
        Some((token_or_empty(t.up_token_id), Side::Up))
    } else {
        Some((token_or_empty(t.down_token_id), Side::Down))
    }
}

/// A redemption request seen as plain values.
pub open spec fn redeem_view(r: Option<(String, Side)>) -> Option<(Seq<char>, Side)> {
    match r {
        Some(p) => Some((p.0@, p.1)),
        None => None,
    }
}

/// The redemption to request for a settled position (see
/// [`spec_redemption`]).
pub fn redemption(t: &CycleTrade, s: &Settlement, simulation: bool) -> (r: Option<(String, Side)>)
    ensures
        redeem_view(r) == spec_redemption(*t, *s, simulation),
{
    if simulation || !(s.up_wins || s.down_wins) {
        return None;
    }
    if s.up_wins {
        let id = match &t.up_token_id {
            Some(i) => i.clone(),
            None => String::new(),
        };
        Some((id, Side::Up))
    } else {
        let id = match &t.down_token_id {
            Some(i) => i.clone(),
            None => String::new(),
        };
        Some((id, Side::Down))
    }
}

/// The market of `t` has ended at time `now`: `now` is at or past the
/// period start plus its duration.
pub open spec fn spec_due(t: CycleTrade, now: u64) -> bool {
    now >= t.period_timestamp + t.market_duration_secs
}

/// Whether the market of `t` has ended at time `now`.
pub fn is_due(t: &CycleTrade, now: u64) -> (r: bool)
    ensures
        r == spec_due(*t, now),
{
    (now as u128) >= (t.period_timestamp as u128) + (t.market_duration_secs as u128)
}

/// The positions awaiting settlement and the profit realised so far.
pub struct Ledger {
    /// Positions keyed by condition id.
    pub trades: KeyedVec<CycleTrade>,
    /// Conditions already settled.
    pub closure_checked: Vec<String>,
    /// Profit over the whole session, in micros.
    pub total_profit: i64,
    /// Profit of the current reporting period, in micros.
    pub period_profit: i64,
}

impl View for Ledger {
    type V = Map<Seq<char>, CycleTrade>;

    /// The positions awaiting settlement, by key.
    open spec fn view(&self) -> Map<Seq<char>, CycleTrade> {
        self.trades@
    }
}

impl Ledger {
    /// The conditions already settled.
    pub open spec fn checked(&self) -> Set<Seq<char>> {
        Set::new(|c: Seq<char>| exists|i: int| 0 <= i < self.closure_checked@.len() && self.closure_checked@[i]@ == c)
    }

    /// Each key names one position.
    pub open spec fn wf(&self) -> bool {
        self.trades.wf()
    }

    /// An empty ledger with no profit.
    pub fn new() -> (l: Ledger)
        ensures
            l.wf(),
            l@ == Map::<Seq<char>, CycleTrade>::empty(),
            l.checked() == Set::<Seq<char>>::empty(),
            l.total_profit == 0,
            l.period_profit == 0,
    {
        let l = Ledger { trades: KeyedVec::new(), closure_checked: Vec::new(), total_profit: 0, period_profit: 0 };
        assert(l.checked() =~= Set::<Seq<char>>::empty());
        l
    }

    /// Registers a position for settlement under `key`, replacing any
    /// position already there.
    pub fn register(&mut self, key: String, trade: CycleTrade)
        requires
            old(self).wf(),
        ensures
            final(self).wf(),
            final(self)@ == old(self)@.insert(key@, trade),
            final(self).checked() == old(self).checked(),
            final(self).total_profit == old(self).total_profit,
            final(self).period_profit == old(self).period_profit,
    {
        self.trades.insert(key, trade);
    }

    /// Whether the condition was already settled.
    pub fn is_checked(&self, condition_id: &str) -> (r: bool)
        ensures
            r == self.checked().contains(condition_id@),
    {
        let mut i: usize = 0;
        while i < self.closure_checked.len()
            invariant
                i <= self.closure_checked@.len(),
                forall|k: int| 0 <= k < i ==> self.closure_checked@[k]@ != condition_id@,
            decreases self.closure_checked.len() - i,
        {
            if crate::text::str_eq(self.closure_checked[i].as_str(), condition_id) {
                assert(self.checked().contains(condition_id@));
                return true;
            }
            i = i + 1;
        }
        false
    }

    /// The keys of the positions whose market has ended by `now` and whose
    /// condition is not settled yet, in the order they were registered.
    pub fn due_keys(&self, now: u64) -> (keys: Vec<String>)
        requires
            self.wf(),
        ensures
            forall|i: int| 0 <= i < keys@.len() ==> {
                &&& #[trigger] self@.dom().contains(keys@[i]@)
                &&& spec_due(self@[keys@[i]@], now)
                &&& !self.checked().contains(self@[keys@[i]@].condition_id@)
            },
            forall|k: Seq<char>| #[trigger] self@.dom().contains(k) && spec_due(self@[k], now)
                && !self.checked().contains(self@[k].condition_id@)
                ==> exists|i: int| 0 <= i < keys@.len() && keys@[i]@ == k,
    {
        let all = self.trades.keys();
        let mut keys: Vec<String> = Vec::new();
        let mut i: usize = 0;
        while i < all.len()
            invariant
                self.wf(),
                i <= all@.len(),
                forall|j: int| 0 <= j < all@.len() ==> self@.dom().contains(#[trigger] all@[j]@),
                forall|j: int| 0 <= j < keys@.len() ==> {
                    &&& #[trigger] self@.dom().contains(keys@[j]@)
                    &&& spec_due(self@[keys@[j]@], now)
                    &&& !self.checked().contains(self@[keys@[j]@].condition_id@)
                },
                forall|j: int| 0 <= j < i && spec_due(self@[#[trigger] all@[j]@], now)
                    && !self.checked().contains(self@[all@[j]@].condition_id@)
                    ==> exists|m: int| 0 <= m < keys@.len() && keys@[m]@ == all@[j]@,
            decreases all.len() - i,
        {
            let ghost before = keys@;
            let k = &all[i];
            assert(self@.dom().contains(all@[i as int]@));
            match self.trades.get(k.as_str()) {
                Some(t) => {
                    if is_due(t, now) && !self.is_checked(t.condition_id.as_str()) {
                        keys.push(k.clone());
                        assert forall|j: int| 0 <= j < i && spec_due(self@[#[trigger] all@[j]@], now)
                            && !self.checked().contains(self@[all@[j]@].condition_id@)
                            implies exists|m: int| 0 <= m < keys@.len() && keys@[m]@ == all@[j]@ by {
                            let m = choose|m: int| 0 <= m < before.len() && before[m]@ == all@[j]@;
                            assert(keys@[m] == before[m]);
                        }
                        assert(keys@[keys@.len() - 1]@ == all@[i as int]@);
                    }
                },
                None => {},
            }
            i = i + 1;
        }
        assert forall|k: Seq<char>| #[trigger] self@.dom().contains(k) && spec_due(self@[k], now)
            && !self.checked().contains(self@[k].condition_id@)
            implies exists|m: int| 0 <= m < keys@.len() && keys@[m]@ == k by {
            let j = choose|j: int| 0 <= j < all@.len() && all@[j]@ == k;
            assert(spec_due(self@[all@[j]@], now));
        }
        keys
    }

    /// Books a settled position: both profit counters move by `pnl`, its
    /// condition is marked settled and the position leaves the ledger.
    pub fn record_settlement(&mut self, key: &str, condition_id: &str, pnl: i64)
        requires
            old(self).wf(),
            i64::MIN <= old(self).total_profit + pnl <= i64::MAX,
            i64::MIN <= old(self).period_profit + pnl <= i64::MAX,
        ensures
            final(self).wf(),
            final(self)@ == old(self)@.remove(key@),
            final(self).checked() == old(self).checked().insert(condition_id@),
            final(self).total_profit == old(self).total_profit + pnl,
            final(self).period_profit == old(self).period_profit + pnl,
    {
        self.total_profit = self.total_profit + pnl;
        self.period_profit = self.period_profit + pnl;
        let ghost old_checked = self.checked();
        self.closure_checked.push(condition_id.to_string());
        assert(self.checked() =~= old_checked.insert(condition_id@)) by {
            assert forall|c: Seq<char>| #[trigger] self.checked().contains(c) <==> old_checked.insert(condition_id@).contains(c) by {
                if old_checked.contains(c) {
                    let i = choose|i: int| 0 <= i < old(self).closure_checked@.len() && old(self).closure_checked@[i]@ == c;
                    assert(self.closure_checked@[i] == old(self).closure_checked@[i]);
                }
                if self.checked().contains(c) {
                    let i = choose|i: int| 0 <= i < self.closure_checked@.len() && self.closure_checked@[i]@ == c;
                    if i < old(self).closure_checked@.len() {
                        assert(self.closure_checked@[i] == old(self).closure_checked@[i]);
                    }
                }
                if c == condition_id@ {
                    assert(self.closure_checked@[self.closure_checked@.len() - 1]@ == c);
                }
            }
        }
        let _ = self.trades.remove(key);
    }
}

} // verus!
