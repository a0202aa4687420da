//! The advisory model: its decision, the context it is asked about, and the
//! request sent to it.
use vstd::prelude::*;
use crate::text;

verus! {

/// What the advisory model recommends.
#[allow(non_camel_case_types)]
#[derive(PartialEq, Eq, Structural, Clone, Copy, Debug)]
pub enum AiAction {
    WAIT,
    TRADE,
    HALT,
}

/// A recommendation with its confidence (0 to 100).
#[derive(PartialEq, Eq, Structural, Clone, Copy, Debug)]
pub struct AiDecision {
    pub action: AiAction,
    pub confidence: u8,
}

impl Default for AiDecision {
    /// The conservative fallback: wait, with no confidence.
    fn default() -> (d: Self)
        ensures
            d.action == AiAction::WAIT,
            d.confidence == 0,
    {
        AiDecision { action: AiAction::WAIT, confidence: 0 }
    }
}

/// A generation request to the local model server.
pub struct OllamaRequest {
    pub model: String,
    pub prompt: String,
    pub format: String,
    pub stream: bool,
}

/// The model server's answer: the generated text.
pub struct OllamaResponse {
    pub response: String,
}

/// What the model is asked about: the asset, the straddle's cost (micros),
/// the seconds left, and the BTC move (millionths).
pub struct AiContext {
    pub asset: String,
    pub straddle_cost: i64,
    pub time_remaining_secs: i64,
    pub btc_volatility: i64,
}

/// The prompt for a context.
pub open spec fn prompt_of(asset: Seq<char>, cost: int, time: int, vol: int) -> Seq<char> {
    "Analyze arbitrage: Asset:"@ + asset + " Cost:$"@ + text::fixed4_repr(cost) + " Time:"@
        + text::dec_int(time) + "s BTCVol:"@ + text::fixed4_repr(vol * 100)
        + "%.\nIf cost > 0.94 or time < 60s, output HALT.\nElse TRADE or WAIT.\nReply ONLY JSON: {\"action\":\"WAIT|TRADE|HALT\",\"confidence\":0-100}"@
}

/// The prompt asking the model whether to trade in `ctx`.
pub fn build_prompt(ctx: &AiContext) -> (p: String)
    requires
        -1_000_000_000_000_000 <= ctx.btc_volatility <= 1_000_000_000_000_000,
    ensures
        p@ == prompt_of(ctx.asset@, ctx.straddle_cost as int, ctx.time_remaining_secs as int, ctx.btc_volatility as int),
{
    let mut p = "Analyze arbitrage: Asset:".to_string();
    p.append(ctx.asset.as_str());
    p.append(" Cost:$");
    p.append(text::format_fixed4(ctx.straddle_cost).as_str());
    p.append(" Time:");
    text::push_chars(&mut p, &text::dec_i64(ctx.time_remaining_secs));
    p.append("s BTCVol:");
    p.append(text::format_fixed4(ctx.btc_volatility * 100).as_str());
    p.append(
        "%.\nIf cost > 0.94 or time < 60s, output HALT.\nElse TRADE or WAIT.\nReply ONLY JSON: {\"action\":\"WAIT|TRADE|HALT\",\"confidence\":0-100}",
    );
    p
}

/// The request sent to the model server for `ctx`: the small local model,
/// JSON output, no streaming.
pub fn ollama_request(ctx: &AiContext) -> (r: OllamaRequest)
    requires
        -1_000_000_000_000_000 <= ctx.btc_volatility <= 1_000_000_000_000_000,
    ensures
        r.model@ == "gemma:2b"@,
        r.prompt@ == prompt_of(ctx.asset@, ctx.straddle_cost as int, ctx.time_remaining_secs as int, ctx.btc_volatility as int),
        r.format@ == "json"@,
        !r.stream,
{
    OllamaRequest {
        model: "gemma:2b".to_string(),
        prompt: build_prompt(ctx),
        format: "json".to_string(),
        stream: false,
    }
}

/// What came of one request to the model server.
#[derive(PartialEq, Eq, Structural, Clone, Copy, Debug)]
pub enum AiReply {
    /// The model answered with a readable decision.
    Decided(AiDecision),
    /// The server could not be reached, or its answer held no readable
    /// decision.
    Failed,
    /// The server answered with an error status, or an answer that could
    /// not be read at all.
    Unanswered,
}

/// The decision in force after a request: the model's decision when it gave
/// one, the conservative fallback after a failure, and the decision already
/// in force when no answer came.
pub fn next_decision(current: AiDecision, reply: AiReply) -> (d: AiDecision)
    ensures
        reply matches AiReply::Decided(x) ==> d == x,
        reply == AiReply::Failed ==> d.action == AiAction::WAIT && d.confidence == 0,
        reply == AiReply::Unanswered ==> d == current,
{
    match reply {
        AiReply::Decided(x) => x,
        AiReply::Failed => AiDecision::default(),
        AiReply::Unanswered => current,
    }
}

} // verus!
