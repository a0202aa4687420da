//! The redeem-only mode: which conditions to redeem and how the run went.
use vstd::prelude::*;
use crate::text;
use crate::state::Side;

verus! {

/// A condition id written with its `0x` prefix.
pub open spec fn spec_normalized_condition(cid: Seq<char>) -> Seq<char> {
    if "0x"@.is_prefix_of(cid) { cid } else { "0x"@ + cid }
}

/// The condition id with a `0x` prefix added when it lacks one.
pub fn normalize_condition_id(cid: &str) -> (r: String)
    ensures
        r@ == spec_normalized_condition(cid@),
{
    if text::str_starts_with(cid, "0x") {
        cid.to_string()
    } else {
        let mut r = "0x".to_string();
        r.append(cid);
        r
    }
}

/// Why the redeem-only mode cannot run.
#[derive(PartialEq, Eq, Structural, Clone, Copy, Debug)]
pub enum RedeemError {
    /// Redemption goes through the proxy wallet, which is not configured.
    MissingProxyWallet,
}

/// The proxy wallet the redeem-only mode works through.
pub fn redeem_proxy(proxy_wallet_address: &Option<String>) -> (r: Result<&String, RedeemError>)
    ensures
        proxy_wallet_address matches Some(p) ==> r == Ok::<&String, RedeemError>(p),
        proxy_wallet_address is None ==> r == Err::<&String, RedeemError>(RedeemError::MissingProxyWallet),
{
    match proxy_wallet_address {
        Some(p) => Ok(p),
        None => Err(RedeemError::MissingProxyWallet),
    }
}

/// The redemption to try next for one condition, given the last attempt
/// (its side and whether it went through): Up first; Down only after Up
/// failed; nothing more after a success or after Down.
pub fn next_redeem_side(last: Option<(Side, bool)>) -> (r: Option<Side>)
    ensures
        r == (match last {
            None => Some(Side::Up),
            Some((Side::Up, false)) => Some(Side::Down),
            Some(_) => None::<Side>,
        }),
{
    match last {
        None => Some(Side::Up),
        Some((Side::Up, false)) => Some(Side::Down),
        Some(_) => None,
    }
}

/// The tally of a redeem-only run.
#[derive(PartialEq, Eq, Structural, Clone, Copy, Debug)]
pub struct RedeemTally {
    pub succeeded: u32,
    pub failed: u32,
}

impl RedeemTally {
    /// No condition tried yet.
    pub fn new() -> (t: Self)
        ensures
            t.succeeded == 0 && t.failed == 0,
    {
        RedeemTally { succeeded: 0, failed: 0 }
    }

    /// Counts one condition: redeemed when either the Up or the Down
    /// redemption went through, failed otherwise.
    pub fn record(&mut self, up_ok: bool, down_ok: bool)
        requires
            old(self).succeeded < u32::MAX,
            old(self).failed < u32::MAX,
        ensures
            (up_ok || down_ok) ==> final(self).succeeded == old(self).succeeded + 1 && final(self).failed == old(self).failed,
            !(up_ok || down_ok) ==> final(self).failed == old(self).failed + 1 && final(self).succeeded == old(self).succeeded,
    {
        if up_ok || down_ok {
            self.succeeded = self.succeeded + 1;
        } else {
            self.failed = self.failed + 1;
        }
    }
}

} // verus!
