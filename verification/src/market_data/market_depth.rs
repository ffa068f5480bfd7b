//! Market depth: quotes of participants and aggregates per price level.
use vstd::prelude::*;
use crate::text::{
    concat_text, decimal, has_prefix, has_suffix, lemma_prefix_of_concat, lemma_suffix_of_concat,
    push_signed_decimal, signed_decimal,
};

verus! {

/// The quotes of the participants on both sides of the book.
#[derive(Clone, Debug)]
pub struct MarketDepthQuotes {
    /// Contains bid quotes, ordered from high to low price.
    pub bids: Vec<MarketDepthQuote>,
    /// Contains ask quotes, ordered from high to low price.
    pub asks: Vec<MarketDepthQuote>,
}

/// The quote of one participant.
#[derive(Clone, Debug)]
pub struct MarketDepthQuote {
    /// The timestamp for this quote, represented as an RFC3339 formatted
    /// date, a profile of the ISO 8601 date standard.
    /// E.g. `"2026-06-28T12:34:01Z"`.
    pub time_stamp: String,
    /// The side of the quote in the order book (Bid or Ask).
    pub side: MarketDepthSide,
    /// The price of the quote.
    pub price: String,
    /// The total number of shares offered/requested by participants.
    pub size: String,
    /// The number of orders aggregated together for this quote by the
    /// participant (market maker or ECN).
    pub order_count: i32,
    /// The name of the participant associated with this quote.
    pub name: String,
}

/// The aggregates per price level on both sides of the book.
#[derive(Clone, Debug)]
pub struct MarketDepthAggregates {
    /// Aggregated bid quotes, ordered from high to low price.
    pub bids: Vec<MarketDepthAggregate>,
    /// Aggregated ask quotes, ordered from low to high price.
    pub asks: Vec<MarketDepthAggregate>,
}

/// The aggregate of one price level.
#[derive(Clone, Debug)]
pub struct MarketDepthAggregate {
    /// The earliest participant timestamp for this quote, represented as an
    /// RFC3339 formatted date, a profile of the ISO 8601 date standard.
    /// E.g. `"2022-06-28T12:34:01Z"`.
    pub earliest_time: String,
    /// The latest participant timestamp for this quote, represented as an
    /// RFC3339 formatted date, a profile of the ISO 8601 date standard.
    /// E.g. `"2022-06-28T12:34:56Z"`.
    pub latest_time: String,
    /// The side of the quote on the order book (bid or ask).
    pub side: MarketDepthSide,
    /// The price of the quote.
    pub price: String,
    /// The total number of shares, or contracts offered/requested by all participants.
    pub total_size: String,
    /// The largest number of shares, or contracts offered/requested by any participant.
    pub biggest_size: String,
    /// The smallest number of shares, or contracts offered/requested by any participant.
    pub smallest_size: String,
    /// The number of participants offering/requesting this price.
    pub num_participants: i32,
    /// The sum of the order counts for all participants offering/requesting
    /// this price.
    pub total_order_count: i32,
}

/// The sides of the book.
#[derive(Clone, Copy, Debug, PartialEq, Eq)]
pub enum MarketDepthSide {
    /// Bid
    Bid,
    /// Ask
    Ask,
}

/// The two market depth streams.
#[derive(Clone, Copy, Debug, PartialEq, Eq)]
pub enum MarketDepthKind {
    /// Participant quotes.
    Quotes,
    /// Aggregates per price level.
    Aggregates,
}

/// The number of levels streamed when none is given.
pub const DEFAULT_DEPTH_LEVELS: i64 = 20i64;

/// The path of a market depth stream, before the symbol.
pub open spec fn market_depth_prefix(kind: MarketDepthKind) -> Seq<char> {
    match kind {
        MarketDepthKind::Quotes => "marketdata/stream/marketdepth/quotes/"@,
        MarketDepthKind::Aggregates => "marketdata/stream/marketdepth/aggregates/"@,
    }
}

/// The endpoint that streams market depth of a symbol, for at most `levels`
/// levels (20 when not given).
pub open spec fn market_depth_endpoint(kind: MarketDepthKind, symbol: Seq<char>, levels: Option<i64>) -> Seq<char> {
    market_depth_prefix(kind) + symbol + "?maxlevels="@ + signed_decimal(
        match levels {
            Some(n) => n as int,
            None => DEFAULT_DEPTH_LEVELS as int,
        },
    )
}

impl MarketDepthKind {
    /// The endpoint that streams this market depth of `symbol`.
    pub fn endpoint(&self, symbol: &str, levels: Option<i64>) -> (r: String)
        ensures
            r@ == market_depth_endpoint(*self, symbol@, levels),
    {
        let mut out = match self {
            MarketDepthKind::Quotes => concat_text("marketdata/stream/marketdepth/quotes/", symbol),
            MarketDepthKind::Aggregates => concat_text("marketdata/stream/marketdepth/aggregates/", symbol),
        };
        out.append("?maxlevels=");
        let n = match levels {
            Some(n) => n,
            None => DEFAULT_DEPTH_LEVELS,
        };
        push_signed_decimal(&mut out, n);
        out
    }
}

} // verus!

verus! {

/// The market depth endpoint of a symbol starts with the stream of its kind
/// and the symbol, and asks for the given number of levels, for either
/// kind; it asks for 20 levels only when no number is given.
pub proof fn law_market_depth_levels(kind: MarketDepthKind, symbol: Seq<char>, levels: Option<i64>)
    ensures
        kind is Quotes ==> has_prefix(
            market_depth_endpoint(kind, symbol, levels),
            "marketdata/stream/marketdepth/quotes/"@ + symbol,
        ),
        kind is Aggregates ==> has_prefix(
            market_depth_endpoint(kind, symbol, levels),
            "marketdata/stream/marketdepth/aggregates/"@ + symbol,
        ),
        levels matches Some(n) ==> has_suffix(
            market_depth_endpoint(kind, symbol, levels),
            "?maxlevels="@ + signed_decimal(n as int),
        ),
        levels is None ==> has_suffix(market_depth_endpoint(kind, symbol, levels), "?maxlevels=20"@),
{
    let head = market_depth_prefix(kind) + symbol;
    let n: int = match levels {
        Some(n) => n as int,
        None => DEFAULT_DEPTH_LEVELS as int,
    };
    let tail = "?maxlevels="@ + signed_decimal(n);
    let ep = market_depth_endpoint(kind, symbol, levels);
    assert(ep =~= head + tail);
    lemma_prefix_of_concat(head, tail);
    lemma_suffix_of_concat(head, tail);
    if levels is None {
        reveal_strlit("?maxlevels=");
        reveal_strlit("?maxlevels=20");
        reveal_with_fuel(decimal, 2);
        assert(decimal(2) == seq!['2']);
        assert(decimal(20) =~= seq!['2', '0']);
        assert(tail =~= "?maxlevels=20"@);
    }
}

} // verus!
