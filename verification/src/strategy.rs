//! The strategy's shared state: per-asset orders, positions awaiting
//! settlement and realised profit, with the status shown each tick.
use vstd::prelude::*;
use crate::closure::{Ledger, Settlement, settle, redemption, spec_settlement, spec_redemption, redeem_view};
use crate::config::StrategyConfig;
use crate::keyed::KeyedVec;
use crate::models::MarketDetails;
use crate::processor::{MarketProcessor, ExpiryOutcome, spec_handover};
use crate::state::{CycleTrade, PreLimitOrderState, Side, MARKET_DURATION_SECS, is_time};
use crate::units::{MAX_AMOUNT, SCALE, trunc_div, spec_value_of};

verus! {

/// What settling one resolved market produced.
pub struct ClosureReport {
    pub settlement: Settlement,
    /// The token to redeem and its side, when trading live and a side won.
    pub redeem: Option<(String, Side)>,
}

/// Where an asset without orders stands in the current period.
#[derive(PartialEq, Eq, Structural, Clone, Copy, Debug)]
pub enum IdleStatus {
    /// Before the pre-order window: minutes and seconds elapsed in the
    /// period, and until the window opens.
    Idle { elapsed_mins: i64, elapsed_secs: i64, window_mins: i64, window_secs: i64 },
    /// Inside the pre-order window: seconds until the next period.
    InOrderWindow { secs_until_next: i64 },
    /// The next period should have started: its start, and how long ago.
    WaitingForNext { next_period_start: i64, secs_ago: i64 },
}

/// Rust's `%` on signed integers: the remainder of division toward zero.
pub open spec fn trunc_rem(a: int, b: int) -> int {
    a - trunc_div(a, b) * b
}

/// The status line of an asset with no orders.
pub open spec fn spec_idle_status(before_mins: int, current_period: int, now: int) -> IdleStatus {
    let next = current_period + MARKET_DURATION_SECS;
    let elapsed = now - current_period;
    let until_next = next - now;
    let until_window = until_next - before_mins * 60;
    if until_window > 0 {
        IdleStatus::Idle {
            elapsed_mins: trunc_div(elapsed, 60) as i64,
            elapsed_secs: trunc_rem(elapsed, 60) as i64,
            window_mins: trunc_div(until_window, 60) as i64,
            window_secs: trunc_rem(until_window, 60) as i64,
        }
    } else if until_next > 0 {
        IdleStatus::InOrderWindow { secs_until_next: until_next as i64 }
    } else {
        IdleStatus::WaitingForNext { next_period_start: next as i64, secs_ago: (-until_next) as i64 }
    }
}

/// The status of an asset with no orders at `now`.
pub fn idle_status(cfg: &StrategyConfig, current_period: i64, now: i64) -> (r: IdleStatus)
    requires
        cfg.wf(),
        is_time(current_period),
        is_time(now),
    ensures
        r == spec_idle_status(cfg.place_order_before_mins as int, current_period as int, now as int),
{
    let next = current_period + MARKET_DURATION_SECS;
    let elapsed = now - current_period;
    let until_next = next - now;
    let window: i64 = (cfg.place_order_before_mins * 60) as i64;
    let until_window = until_next - window;
    if until_window > 0 {
        IdleStatus::Idle {
            elapsed_mins: elapsed / 60,
            elapsed_secs: elapsed % 60,
            window_mins: until_window / 60,
            window_secs: until_window % 60,
        }
    } else if until_next > 0 {
        IdleStatus::InOrderWindow { secs_until_next: until_next }
    } else {
        IdleStatus::WaitingForNext { next_period_start: next, secs_ago: -until_next }
    }
}

/// Minutes and seconds left in the period starting at `period_start`, zero
/// once it has ended.
pub fn countdown(period_start: i64, now: i64) -> (r: (i64, i64))
    requires
        is_time(period_start),
        is_time(now),
    ensures
        ({
            let left = period_start + MARKET_DURATION_SECS - now;
            r == (if left > 0 { (trunc_div(left, 60) as i64, trunc_rem(left, 60) as i64) } else { (0i64, 0i64) })
        }),
{
    let left = period_start + MARKET_DURATION_SECS - now;
    if left > 0 { (left / 60, left % 60) } else { (0, 0) }
}

/// The states after one asset's tick: the asset's entry set to `kept`, or
/// removed when there is none.
pub open spec fn spec_commit_states(
    states: Map<Seq<char>, PreLimitOrderState>,
    asset: Seq<char>,
    kept: Option<PreLimitOrderState>,
) -> Map<Seq<char>, PreLimitOrderState> {
    match kept {
        Some(s) => states.insert(asset, s),
        None => states.remove(asset),
    }
}

/// The positions after one asset's tick: a valid handed-over position joins
/// them under its condition.
pub open spec fn spec_commit_positions(
    positions: Map<Seq<char>, CycleTrade>,
    handover: Option<CycleTrade>,
) -> Map<Seq<char>, CycleTrade> {
    match handover {
        Some(t) => if t.wf() { positions.insert(t.condition_id@, t) } else { positions },
        None => positions,
    }
}

/// The strategy: the decision logic, the order state of each asset, and
/// the ledger of positions and profit.
pub struct PreLimitStrategy {
    pub processor: MarketProcessor,
    /// Order state by asset ticker.
    pub states: KeyedVec<PreLimitOrderState>,
    pub ledger: Ledger,
}

impl PreLimitStrategy {
    /// The strategy can run.
    pub open spec fn wf(&self) -> bool {
        &&& self.processor.wf()
        &&& self.states.wf()
        &&& self.ledger.wf()
        &&& forall|k: Seq<char>| #[trigger] self.ledger@.dom().contains(k) ==> self.ledger@[k].wf()
    }

    /// A strategy with no orders, no positions and no profit.
    pub fn new(config: StrategyConfig) -> (s: Self)
        requires
            config.wf(),
            -MAX_AMOUNT <= config.bankroll_usdc <= MAX_AMOUNT,
        ensures
            s.wf(),
            s.processor.cfg() == config,
            s.states@ == Map::<Seq<char>, PreLimitOrderState>::empty(),
            s.ledger@ == Map::<Seq<char>, CycleTrade>::empty(),
            s.ledger.total_profit == 0,
            s.ledger.period_profit == 0,
    {
        PreLimitStrategy { processor: MarketProcessor::new(config), states: KeyedVec::new(), ledger: Ledger::new() }
    }

    /// The profit realised over the session.
    pub fn get_total_profit(&self) -> (p: i64)
        ensures
            p == self.ledger.total_profit,
    {
        self.ledger.total_profit
    }

    /// The profit realised in the current reporting period.
    pub fn get_period_profit(&self) -> (p: i64)
        ensures
            p == self.ledger.period_profit,
    {
        self.ledger.period_profit
    }

    /// Stores the outcome of one asset's tick: the asset's state becomes
    /// `kept` (or is removed when there is none), and a handed-over position
    /// is registered under its condition for settlement when its shares and
    /// prices are in range. Nothing else changes: the other assets' states,
    /// the other positions, the profit and the processor stay as they were.
    /// Returns whether the position was registered.
    pub fn commit_tick(&mut self, asset: &str, kept: Option<PreLimitOrderState>, handover: Option<CycleTrade>) -> (registered: bool)
        requires
            old(self).wf(),
        ensures
            final(self).wf(),
            final(self).states@ == spec_commit_states(old(self).states@, asset@, kept),
            final(self).ledger@ == spec_commit_positions(old(self).ledger@, handover),
            registered == (handover matches Some(t) && t.wf()),
            final(self).ledger.checked() == old(self).ledger.checked(),
            final(self).ledger.total_profit == old(self).ledger.total_profit,
            final(self).ledger.period_profit == old(self).ledger.period_profit,
            final(self).processor == old(self).processor,
    {
        match kept {
            Some(s) => self.states.insert(asset.to_string(), s),
            None => {
                let _ = self.states.remove(asset);
            },
        }
        match handover {
            Some(t) => {
                if 0 <= t.up_shares && t.up_shares <= MAX_AMOUNT && 0 <= t.down_shares && t.down_shares <= MAX_AMOUNT
                    && 0 <= t.up_avg_price && t.up_avg_price <= SCALE && 0 <= t.down_avg_price && t.down_avg_price <= SCALE {
                    let key = t.condition_id.clone();
                    let ghost before = self.ledger@;
                    self.ledger.register(key, t);
                    assert forall|k: Seq<char>| #[trigger] self.ledger@.dom().contains(k) implies self.ledger@[k].wf() by {
                        if k != t.condition_id@ {
                            assert(before.dom().contains(k));
                        }
                    }
                    true
                } else {
                    false
                }
            },
            None => false,
        }
    }

    /// Replaces the state of `asset` by freshly opened orders, first
    /// handing over for settlement the straddle the old state held intact
    /// (see [`spec_handover`]). Returns whether a position was registered.
    pub fn replace_state(&mut self, asset: &str, new_state: PreLimitOrderState) -> (registered: bool)
        requires
            old(self).wf(),
        ensures
            final(self).wf(),
            final(self).states@ == old(self).states@.insert(asset@, new_state),
            final(self).ledger@ == spec_commit_positions(old(self).ledger@, spec_handover(
                if old(self).states@.dom().contains(asset@) { Some(old(self).states@[asset@]) } else { None })),
            final(self).ledger.checked() == old(self).ledger.checked(),
            final(self).ledger.total_profit == old(self).ledger.total_profit,
            final(self).ledger.period_profit == old(self).ledger.period_profit,
            final(self).processor == old(self).processor,
    {
        let handover = match self.states.get(asset) {
            Some(s) => MarketProcessor::handover_of(s),
            None => None,
        };
        self.commit_tick(asset, Some(new_state), handover)
    }

    /// Ends the tick of `asset` with its updated state `s`: once its market
    /// has ended the state leaves and the straddle it held intact, if any,
    /// is registered for settlement; before that the state is stored as it
    /// is. Returns what the end of the tick produced (see
    /// [`MarketProcessor::finish_tick`]).
    pub fn finish_asset(&mut self, asset: &str, s: PreLimitOrderState, now: i64) -> (out: ExpiryOutcome)
        requires
            old(self).wf(),
            s.wf(),
        ensures
            final(self).wf(),
            out.expired == (now > s.expiry),
            final(self).states@ == (if out.expired { old(self).states@.remove(asset@) } else { old(self).states@.insert(asset@, s) }),
            final(self).ledger@ == (if out.expired {
                spec_commit_positions(old(self).ledger@, spec_handover(Some(s)))
            } else {
                old(self).ledger@
            }),
            out.trade == (if out.expired { spec_handover(Some(s)) } else { None }),
            out.loss == (if out.expired {
                match s.winner_entry_price {
                    Some(p) => -spec_value_of(s.up_order_shares as int, p as int),
                    None => 0,
                }
            } else {
                0
            }),
            final(self).ledger.checked() == old(self).ledger.checked(),
            final(self).ledger.total_profit == old(self).ledger.total_profit,
            final(self).ledger.period_profit == old(self).ledger.period_profit,
            final(self).processor == old(self).processor,
    {
        let (kept, out) = MarketProcessor::finish_tick(s, now);
        let handover = match &out.trade {
            Some(t) => Some(t.duplicate()),
            None => None,
        };
        self.commit_tick(asset, kept, handover);
        out
    }

    /// Books a loss realised by a sale against the session profit.
    pub fn book_loss(&mut self, loss: i64)
        requires
            i64::MIN <= old(self).ledger.total_profit - loss <= i64::MAX,
        ensures
            final(self).ledger.total_profit == old(self).ledger.total_profit - loss,
            final(self).ledger.period_profit == old(self).ledger.period_profit,
            final(self).ledger@ == old(self).ledger@,
            final(self).ledger.checked() == old(self).ledger.checked(),
            final(self).ledger.wf() == old(self).ledger.wf(),
            final(self).processor == old(self).processor,
            final(self).states == old(self).states,
    {
        self.ledger.total_profit = self.ledger.total_profit - loss;
    }

    /// Settles the position under `key` against its market as the exchange
    /// now reports it. Nothing happens while the market is open; once it is
    /// closed, the settlement's profit is booked, the condition marked
    /// settled and the position dropped, and the redemption to request is
    /// returned with it.
    pub fn settle_market(&mut self, key: &str, market: &MarketDetails) -> (r: Option<ClosureReport>)
        requires
            old(self).wf(),
            old(self).ledger@.dom().contains(key@),
            i64::MIN + 2 * MAX_AMOUNT <= old(self).ledger.total_profit <= i64::MAX - MAX_AMOUNT,
            i64::MIN + 2 * MAX_AMOUNT <= old(self).ledger.period_profit <= i64::MAX - MAX_AMOUNT,
        ensures
            final(self).wf(),
            !market.closed ==> r is None && *final(self) == *old(self),
            market.closed ==> {
                let t = old(self).ledger@[key@];
                let s = spec_settlement(t, market.tokens@);
                &&& r matches Some(rep) && rep.settlement == s
                    && redeem_view(rep.redeem) == spec_redemption(t, s, old(self).processor.cfg().simulation_mode)
                &&& final(self).ledger@ == old(self).ledger@.remove(key@)
                &&& final(self).ledger.checked() == old(self).ledger.checked().insert(t.condition_id@)
                &&& final(self).ledger.total_profit == old(self).ledger.total_profit + s.pnl
                &&& final(self).ledger.period_profit == old(self).ledger.period_profit + s.pnl
                &&& final(self).processor == old(self).processor
                &&& final(self).states == old(self).states
            },
    {
        if !market.closed {
            return None;
        }
        let (settlement, redeem, cond) = match self.ledger.trades.get(key) {
            Some(t) => {
                let s = settle(t, &market.tokens);
                let r = redemption(t, &s, self.processor.risk.config.simulation_mode);
                (s, r, t.condition_id.clone())
            },
            None => {
                return None;
            },
        };
        self.ledger.record_settlement(key, cond.as_str(), settlement.pnl);
        assert forall|k: Seq<char>| #[trigger] self.ledger@.dom().contains(k) implies self.ledger@[k].wf() by {
            assert(old(self).ledger@.dom().contains(k));
        }
        Some(ClosureReport { settlement, redeem })
    }
}

} // verus!
