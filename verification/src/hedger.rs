//! Hedging of one-sided positions on a perpetual-futures venue.
use vstd::prelude::*;
use crate::text;

verus! {

/// A hedger; when disabled, every request is a no-op.
pub struct HyperliquidHedger {
    pub enabled: bool,
    pub api_key: String,
    pub private_key: String,
}

/// The id reported for a hedge placed at time `ts`: `HL-HEDGE-{ts}`.
pub open spec fn hedge_id(ts: int) -> Seq<char> {
    "HL-HEDGE-"@ + text::dec_int(ts)
}

impl HyperliquidHedger {
    /// A hedger with the given switch and credentials.
    pub fn new(enabled: bool, api_key: String, private_key: String) -> (h: Self)
        ensures
            h.enabled == enabled,
            h.api_key == api_key,
            h.private_key == private_key,
    {
        HyperliquidHedger { enabled, api_key, private_key }
    }

    /// The id of a hedge placed at time `ts`, or `HEDGING_DISABLED`.
    pub fn hedge_order_id(&self, ts: i64) -> (r: String)
        ensures
            !self.enabled ==> r@ == "HEDGING_DISABLED"@,
            self.enabled ==> r@ == hedge_id(ts as int),
    {
        if !self.enabled {
            return "HEDGING_DISABLED".to_string();
        }
        let mut id = "HL-HEDGE-".to_string();
        text::push_chars(&mut id, &text::dec_i64(ts));
        id
    }

    /// Places a hedge of `size` shares of `asset` in direction `side`;
    /// returns `HEDGING_DISABLED` when disabled, else the hedge's id stamped
    /// with the current time. (No venue order is sent yet.)
    pub fn place_hedge_order(&self, asset: &str, size: i64, side: &str) -> (r: String)
        ensures
            !self.enabled ==> r@ == "HEDGING_DISABLED"@,
            self.enabled ==> exists|ts: i64| ts >= 0 && r@ == hedge_id(ts as int),
    {
        if !self.enabled {
            return "HEDGING_DISABLED".to_string();
        }
        let ts = crate::discovery::get_current_time_et();
        self.hedge_order_id(ts)
    }

    /// Closes a hedge; nothing to do on the venue yet.
    pub fn close_hedge_order(&self, asset: &str, size: i64, side: &str) {
    }
}

} // verus!
