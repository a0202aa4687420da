//! Fixed-point units.
//!
//! A price is the dollar value of one outcome share, a number in `[0, 1]`
//! for a live market, held as an integer count of millionths of a dollar
//! ("micros"): `0.45` is `450_000`. Share counts are held in millionths of a
//! share and dollar amounts in millionths of a dollar, so every quantity of
//! the strategy is an `i64` with the same scale.
use vstd::prelude::*;

verus! {

/// Millionths per unit.
pub const SCALE: i64 = 1_000_000;

/// One price tick (one cent) in micros.
pub const TICK: i64 = 10_000;

/// The lowest price an order may carry (one cent).
pub const MIN_ORDER_PRICE: i64 = 10_000;

/// The highest price an order may carry (ninety-nine cents).
pub const MAX_ORDER_PRICE: i64 = 990_000;

/// The largest share count or dollar amount (in micros) the strategy
/// handles: one billion units.
pub const MAX_AMOUNT: i64 = 1_000_000_000_000_000;

/// Integer division rounding toward zero, as Rust's `/` does on signed
/// integers.
pub open spec fn trunc_div(a: int, b: int) -> int {
    if a >= 0 {
        a / b
    } else {
        -((-a) / b)
    }
}

/// The value in micros of `shares` shares (in micros) at `price` (in
/// micros), rounded toward zero.
pub open spec fn spec_value_of(shares: int, price: int) -> int {
    trunc_div(shares * price, SCALE as int)
}

/// The dollar value, in micros, of `shares` (in micros) at `price` (in
/// micros), rounded toward zero.
pub fn value_of(shares: i64, price: i64) -> (r: i64)
    requires
        -MAX_AMOUNT <= shares <= MAX_AMOUNT,
        -SCALE <= price <= SCALE,
    ensures
        r == spec_value_of(shares as int, price as int),
        -MAX_AMOUNT <= r <= MAX_AMOUNT,
{
    proof {
        lemma_value_bounds(shares as int, price as int);
    }
    let prod: i128 = (shares as i128) * (price as i128);
    let q: i128 = prod / (SCALE as i128);
    q as i64
}

proof fn lemma_value_bounds(shares: int, price: int)
    requires
        -MAX_AMOUNT <= shares <= MAX_AMOUNT,
        -SCALE <= price <= SCALE,
    ensures
        -MAX_AMOUNT * SCALE <= shares * price <= MAX_AMOUNT * SCALE,
        -MAX_AMOUNT <= spec_value_of(shares, price) <= MAX_AMOUNT,
{
    assert(-MAX_AMOUNT * SCALE <= shares * price <= MAX_AMOUNT * SCALE) by (nonlinear_arith)
        requires
            -MAX_AMOUNT <= shares <= MAX_AMOUNT,
            -SCALE <= price <= SCALE,
    ;
    let p = shares * price;
    if p >= 0 {
        assert(p / SCALE as int <= MAX_AMOUNT) by (nonlinear_arith)
            requires 0 <= p <= MAX_AMOUNT * SCALE;
    } else {
        assert((-p) / SCALE as int <= MAX_AMOUNT) by (nonlinear_arith)
            requires 0 <= -p <= MAX_AMOUNT * SCALE;
    }
}

/// A price rounded to whole cents, half a cent rounding away from zero.
pub open spec fn cents_rounded(price: int) -> int {
    if price >= 0 {
        (price + 5_000) / 10_000
    } else {
        -((-price + 5_000) / 10_000)
    }
}

/// The order price of `price`: rounded to a whole cent and clamped to
/// `[0.01, 0.99]`.
pub open spec fn spec_round_price(price: int) -> int {
    let r = cents_rounded(price) * 10_000;
    if r < MIN_ORDER_PRICE {
        MIN_ORDER_PRICE as int
    } else if r > MAX_ORDER_PRICE {
        MAX_ORDER_PRICE as int
    } else {
        r
    }
}

/// Rounds a price to the nearest cent (half a cent away from zero) and
/// clamps it to the range an order may carry, `[0.01, 0.99]`.
pub fn round_price(price: i64) -> (r: i64)
    ensures
        r == spec_round_price(price as int),
        MIN_ORDER_PRICE <= r <= MAX_ORDER_PRICE,
        r % TICK == 0,
{
    if price <= 0 {
        return MIN_ORDER_PRICE;
    }
    let q = price / TICK;
    let rem = price % TICK;
    let cents: i64 = if rem >= 5_000 { q + 1 } else { q };
    if cents < 1 {
        MIN_ORDER_PRICE
    } else if cents > 99 {
        MAX_ORDER_PRICE
    } else {
        cents * TICK
    }
}

/// The order price of a price held in a wider integer (see
/// [`spec_round_price`]): anything at or below zero is the lowest order
/// price and anything at or above a dollar the highest.
pub fn round_price_wide(price: i128) -> (r: i64)
    ensures
        r == spec_round_price(price as int),
{
    if price <= 0 {
        MIN_ORDER_PRICE
    } else if price >= SCALE as i128 {
        MAX_ORDER_PRICE
    } else {
        round_price(price as i64)
    }
}

} // verus!
