//! Per-asset order state and the positions handed over for settlement.
use vstd::prelude::*;

verus! {

/// Length of one market period: 15 minutes, in seconds.
pub const MARKET_DURATION_SECS: i64 = 900;

/// [`MARKET_DURATION_SECS`] as an unsigned count.
pub const MARKET_DURATION_SECS_U64: u64 = 900;

/// One of the two outcome tokens of a market.
#[derive(PartialEq, Eq, Structural, Clone, Copy, Debug)]
pub enum Side {
    Up,
    Down,
}

/// Where an asset's cycle stands.
#[derive(PartialEq, Eq, Structural, Clone, Copy, Debug)]
pub enum CycleStatus {
    /// Idle, or too late in the period to enter.
    WaitingForNextCycle,
    /// Orders placed, the straddle not yet formed.
    AcceptingOrders,
    /// Both legs matched.
    StraddleFormed,
    /// The losing leg is being sold.
    ClosingLoser,
    /// Settled, awaiting cleanup.
    Expired,
}

/// A position held to resolution, with what it cost.
pub struct CycleTrade {
    pub condition_id: String,
    pub period_timestamp: u64,
    pub market_duration_secs: u64,
    pub up_token_id: Option<String>,
    pub down_token_id: Option<String>,
    pub up_shares: i64,
    pub down_shares: i64,
    pub up_avg_price: i64,
    pub down_avg_price: i64,
}

/// The orders and fills of one asset in one market period.
pub struct PreLimitOrderState {
    pub asset: String,
    pub condition_id: String,
    pub up_token_id: String,
    pub down_token_id: String,
    pub up_order_id: Option<String>,
    pub down_order_id: Option<String>,
    pub up_order_price: i64,
    pub down_order_price: i64,
    pub up_matched: bool,
    pub down_matched: bool,
    pub merged: bool,
    pub expiry: i64,
    pub risk_sold: bool,
    pub order_placed_at: i64,
    pub market_period_start: i64,
    /// When only one side first stood matched.
    pub one_side_matched_at: Option<i64>,
    /// The spot price of the asset when the orders were placed.
    pub binance_price_at_placement: Option<i64>,
    pub up_order_shares: i64,
    pub down_order_shares: i64,
    pub up_shares: i64,
    pub down_shares: i64,
    pub up_hedged: bool,
    pub down_hedged: bool,
    pub both_hedged: bool,
    pub status: CycleStatus,
    pub winner_entry_price: Option<i64>,
}

/// The largest magnitude of a timestamp the strategy handles, so that sums
/// and differences of timestamps and periods cannot overflow.
pub const MAX_TIME: i64 = 1_000_000_000_000_000;

/// A timestamp (seconds) within [`MAX_TIME`].
pub open spec fn is_time(t: i64) -> bool {
    -MAX_TIME <= t <= MAX_TIME
}

impl PreLimitOrderState {
    /// The ranges within which the fixed-point arithmetic on this state
    /// stays exact: timestamps within [`MAX_TIME`], share counts within
    /// [`MAX_AMOUNT`](crate::units::MAX_AMOUNT), order and entry prices in
    /// `[0, 1]`.
    pub open spec fn wf(&self) -> bool {
        &&& is_time(self.expiry)
        &&& is_time(self.order_placed_at)
        &&& is_time(self.market_period_start)
        &&& (self.one_side_matched_at matches Some(t) ==> is_time(t))
        &&& 0 <= self.up_order_shares <= crate::units::MAX_AMOUNT
        &&& 0 <= self.down_order_shares <= crate::units::MAX_AMOUNT
        &&& 0 <= self.up_shares <= crate::units::MAX_AMOUNT
        &&& 0 <= self.down_shares <= crate::units::MAX_AMOUNT
        &&& 0 <= self.up_order_price <= crate::units::SCALE
        &&& 0 <= self.down_order_price <= crate::units::SCALE
        &&& (self.winner_entry_price matches Some(p) ==> 0 <= p <= crate::units::SCALE)
    }

    /// Exactly one of the two legs is matched.
    pub open spec fn one_side_only(&self) -> bool {
        (self.up_matched && !self.down_matched) || (self.down_matched && !self.up_matched)
    }

    /// The state of a freshly placed pair of buy orders, one per side, at
    /// the given prices and for the same number of shares, in the market
    /// whose period starts at `period_start`.
    pub fn opened(
        asset: String,
        condition_id: String,
        up_token_id: String,
        down_token_id: String,
        up_order_id: Option<String>,
        down_order_id: Option<String>,
        up_price: i64,
        down_price: i64,
        shares: i64,
        period_start: i64,
        placed_at: i64,
        binance_price_at_placement: Option<i64>,
    ) -> (s: Self)
        requires
            period_start <= i64::MAX - MARKET_DURATION_SECS,
        ensures
            s.asset == asset,
            s.condition_id == condition_id,
            s.up_token_id == up_token_id,
            s.down_token_id == down_token_id,
            s.up_order_id == up_order_id,
            s.down_order_id == down_order_id,
            s.up_order_price == up_price,
            s.down_order_price == down_price,
            !s.up_matched && !s.down_matched,
            !s.merged && !s.risk_sold,
            s.expiry == period_start + MARKET_DURATION_SECS,
            s.order_placed_at == placed_at,
            s.market_period_start == period_start,
            s.one_side_matched_at is None,
            s.binance_price_at_placement == binance_price_at_placement,
            s.up_order_shares == shares && s.down_order_shares == shares,
            s.up_shares == 0 && s.down_shares == 0,
            !s.up_hedged && !s.down_hedged && !s.both_hedged,
            s.status == CycleStatus::AcceptingOrders,
            s.winner_entry_price is None,
    {
        PreLimitOrderState {
            asset,
            condition_id,
            up_token_id,
            down_token_id,
            up_order_id,
            down_order_id,
            up_order_price: up_price,
            down_order_price: down_price,
            up_matched: false,
            down_matched: false,
            merged: false,
            expiry: period_start + MARKET_DURATION_SECS,
            risk_sold: false,
            order_placed_at: placed_at,
            market_period_start: period_start,
            one_side_matched_at: None,
            binance_price_at_placement,
            up_order_shares: shares,
            down_order_shares: shares,
            up_shares: 0,
            down_shares: 0,
            up_hedged: false,
            down_hedged: false,
            both_hedged: false,
            status: CycleStatus::AcceptingOrders,
            winner_entry_price: None,
        }
    }
}

fn clone_opt(o: &Option<String>) -> (r: Option<String>)
    ensures
        r == *o,
{
    match o {
        Some(s) => Some(s.clone()),
        None => None,
    }
}

impl CycleTrade {
    /// The position left after the losing leg was sold: the winner's order
    /// shares at its order price, nothing on the other side.
    pub fn holding_winner(s: &PreLimitOrderState, winner: Side) -> (t: CycleTrade)
        ensures
            t.condition_id == s.condition_id,
            t.period_timestamp == s.market_period_start as u64,
            t.market_duration_secs == MARKET_DURATION_SECS_U64,
            t.up_token_id == Some(s.up_token_id),
            t.down_token_id == Some(s.down_token_id),
            winner == Side::Up ==> t.up_shares == s.up_order_shares && t.down_shares == 0
                && t.up_avg_price == s.up_order_price && t.down_avg_price == 0,
            winner == Side::Down ==> t.up_shares == 0 && t.down_shares == s.down_order_shares
                && t.up_avg_price == 0 && t.down_avg_price == s.down_order_price,
    {
        let (up_shares, down_shares, up_avg, down_avg) = match winner {
            Side::Up => (s.up_order_shares, 0i64, s.up_order_price, 0i64),
            Side::Down => (0i64, s.down_order_shares, 0i64, s.down_order_price),
        };
        CycleTrade {
            condition_id: s.condition_id.clone(),
            period_timestamp: s.market_period_start as u64,
            market_duration_secs: MARKET_DURATION_SECS_U64,
            up_token_id: Some(s.up_token_id.clone()),
            down_token_id: Some(s.down_token_id.clone()),
            up_shares,
            down_shares,
            up_avg_price: up_avg,
            down_avg_price: down_avg,
        }
    }

    /// The position of a straddle held to expiry: both legs' order shares at
    /// their order prices.
    pub fn holding_both(s: &PreLimitOrderState) -> (t: CycleTrade)
        ensures
            t.condition_id == s.condition_id,
            t.period_timestamp == s.market_period_start as u64,
            t.market_duration_secs == MARKET_DURATION_SECS_U64,
            t.up_token_id == Some(s.up_token_id),
            t.down_token_id == Some(s.down_token_id),
            t.up_shares == s.up_order_shares,
            t.down_shares == s.down_order_shares,
            t.up_avg_price == s.up_order_price,
            t.down_avg_price == s.down_order_price,
    {
        CycleTrade {
            condition_id: s.condition_id.clone(),
            period_timestamp: s.market_period_start as u64,
            market_duration_secs: MARKET_DURATION_SECS_U64,
            up_token_id: Some(s.up_token_id.clone()),
            down_token_id: Some(s.down_token_id.clone()),
            up_shares: s.up_order_shares,
            down_shares: s.down_order_shares,
            up_avg_price: s.up_order_price,
            down_avg_price: s.down_order_price,
        }
    }

    /// A copy of the trade.
    pub fn duplicate(&self) -> (t: CycleTrade)
        ensures
            t == *self,
    {
        CycleTrade {
            condition_id: self.condition_id.clone(),
            period_timestamp: self.period_timestamp,
            market_duration_secs: self.market_duration_secs,
            up_token_id: clone_opt(&self.up_token_id),
            down_token_id: clone_opt(&self.down_token_id),
            up_shares: self.up_shares,
            down_shares: self.down_shares,
            up_avg_price: self.up_avg_price,
            down_avg_price: self.down_avg_price,
        }
    }
}

} // verus!
