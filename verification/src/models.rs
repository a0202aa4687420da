//! What the exchange reports and what is sent to it.
use vstd::prelude::*;

verus! {

/// A market as listed by slug.
pub struct Market {
    pub condition_id: String,
    pub market_id: Option<String>,
    pub question: String,
    pub slug: String,
    pub end_date_iso: Option<String>,
    pub active: bool,
    pub closed: bool,
}

/// A market with its outcome tokens.
pub struct MarketDetails {
    pub condition_id: String,
    pub question: String,
    pub tokens: Vec<MarketToken>,
    pub active: bool,
    pub closed: bool,
    pub end_date_iso: String,
}

/// One outcome token of a market.
pub struct MarketToken {
    pub outcome: String,
    pub token_id: String,
    pub winner: bool,
}

/// A level of an order book: price and size in micros.
pub struct OrderBookEntry {
    pub price: i64,
    pub size: i64,
}

/// An order book.
pub struct OrderBook {
    pub bids: Vec<OrderBookEntry>,
    pub asks: Vec<OrderBookEntry>,
}

/// Best bid and ask of a token, in micros.
pub struct TokenPrice {
    pub token_id: String,
    pub bid: Option<i64>,
    pub ask: Option<i64>,
}

/// An order to place; size and price written as decimal numbers.
pub struct OrderRequest {
    pub token_id: String,
    pub side: String,
    pub size: String,
    pub price: String,
    pub order_type: String,
}

/// The exchange's answer to an order.
pub struct OrderResponse {
    pub order_id: Option<String>,
    pub status: String,
    pub message: Option<String>,
}

/// The answer to a redemption.
pub struct RedeemResponse {
    pub success: bool,
    pub message: Option<String>,
    pub transaction_hash: Option<String>,
    pub amount_redeemed: Option<String>,
}

/// A fill of an order, size and price in micros.
pub struct Fill {
    pub token_id: Option<String>,
    pub side: String,
    pub size: i64,
    pub price: i64,
    pub timestamp: u64,
    pub condition_id: Option<String>,
}

/// The token `id` is among `tokens` and marked as the winner.
pub open spec fn is_winning_token(tokens: Seq<MarketToken>, id: Seq<char>) -> bool {
    exists|i: int| 0 <= i < tokens.len() && tokens[i].token_id@ == id && tokens[i].winner
}

/// Whether the token `id` is among `tokens` and marked as the winner.
pub fn token_won(tokens: &Vec<MarketToken>, id: &str) -> (r: bool)
    ensures
        r == is_winning_token(tokens@, id@),
{
    let mut i: usize = 0;
    while i < tokens.len()
        invariant
            i <= tokens.len(),
            forall|k: int| 0 <= k < i ==> !(tokens@[k].token_id@ == id@ && tokens@[k].winner),
        decreases tokens.len() - i,
    {
        if tokens[i].winner && crate::text::str_eq(tokens[i].token_id.as_str(), id) {
            return true;
        }
        i = i + 1;
    }
    false
}

} // verus!
