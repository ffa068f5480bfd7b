//! Quotes of symbols, and the endpoints that fetch and stream them.
use vstd::prelude::*;
use crate::text::{
    has_infix, has_prefix, join, lemma_infix_prepend, lemma_join_has_part, lemma_prefix_of_concat,
    push_joined_strs, str_views,
};

verus! {

/// A quote snapshot of a symbol.
#[derive(Clone, Debug)]
pub struct Quote {
    /// The price at which a security, futures contract, or other
    /// financial instrument is offered for sale.
    pub ask: String,
    /// The number of trading units that prospective sellers are
    /// prepared to sell.
    pub ask_size: String,
    /// The highest price a prospective buyer is prepared to pay
    /// at a particular time for a trading unit of a given symbol.
    pub bid: String,
    /// The number of trading units that prospective buyers are
    /// prepared to purchase for a symbol.
    pub bid_size: String,
    /// The closing price of the day.
    pub close: String,
    /// The total number of open or outstanding (not closed or delivered)
    /// options and/or futures contracts that exist on a given day, delivered
    /// on a particular day.
    pub daily_open_interest: String,
    /// The highest price of the day.
    pub high: String,
    /// The lowest price of the day.
    pub low: String,
    /// The highest price of the past 52 weeks.
    pub high_52_week: String,
    /// Date of the highest price in the past 52 week.
    pub high_52_week_timestamp: String,
    /// The last price at which the symbol traded.
    pub last: String,
    /// The minimum price a commodity futures contract may be traded for
    /// the current session.
    ///
    /// NOTE: Only `Some(price)` for commodity futures symbols.
    pub min_price: Option<String>,
    /// The maximum price a commodity futures contract may be traded for
    /// the current session.
    ///
    /// NOTE: Only `Some(price)` for commodity futures symbols.
    pub max_price: Option<String>,
    /// The day after which an investor who has purchased a futures contract
    /// may be required to take physical delivery of the contracts underlying
    /// commodity.
    ///
    /// NOTE: Only `Some(date)` for futures symbols.
    pub first_notice_date: Option<String>,
    /// The final day that a futures contract may trade or be closed out before
    /// the delivery of the underlying asset or cash settlement must occur.
    ///
    /// NOTE: Only `Some(date)` for futures symbols.
    pub last_trading_date: Option<String>,
    /// The lowest price of the past 52 weeks.
    pub low_52_week: String,
    /// Date of the lowest price of the past 52 weeks.
    pub low_52_week_timestamp: String,
    /// Market specific information for a symbol.
    pub market_flags: MarketFlag,
    /// The difference between the last displayed price and the previous day's
    /// close.
    pub net_change: String,
    /// The percentage difference between the current price and previous day's
    /// close, expressed as a percentage. E.g: a price change from 100 to 103.5
    /// would be expressed as `"3.5"`.
    pub net_change_pct: String,
    /// The opening price of the day.
    pub open: String,
    /// The closing price of the previous day.
    pub previous_volume: String,
    /// Restriction if any returns array.
    pub restrictions: Option<Vec<String>>,
    /// The name identifying the financial instrument for which the data is displayed.
    pub symbol: String,
    /// Trading increment based on a level group.
    pub tick_size_tier: String,
    /// Time of the last trade.
    pub trade_time: String,
    /// Daily volume in shares/contracts.
    pub volume: String,
    /// Number of contracts/shares last traded.
    pub last_size: String,
    /// Exchange name of last trade.
    pub last_venue: String,
    /// VWAP (Volume Weighted Average Price) is a measure of the price at which the
    /// majority of a given day's trading in a given security took place. It is
    /// calculated by adding the dollars traded for the average price of the bar
    /// throughout the day ("avgprice" x "number of shares traded" per bar) and
    /// dividing by the total shares traded for the day.
    pub vwap: String,
}

/// Flags on the market of a quote.
#[derive(Clone, Copy, Debug, PartialEq, Eq)]
pub struct MarketFlag {
    /// Whether the quote is from BATS.
    pub is_bats: bool,
    /// Whether the quote is delayed.
    pub is_delayed: bool,
    /// Whether trading is halted.
    pub is_halted: bool,
    /// Whether the symbol is hard to borrow.
    pub is_hard_to_borrow: bool,
}

/// The endpoint that fetches quote snapshots of symbols.
pub open spec fn quotes_endpoint(symbols: Seq<Seq<char>>) -> Seq<char> {
    "marketdata/quotes/"@ + join(symbols, ","@)
}

/// The endpoint that streams quotes of symbols.
pub open spec fn stream_quotes_endpoint(symbols: Seq<Seq<char>>) -> Seq<char> {
    "marketdata/stream/quotes/"@ + join(symbols, ","@)
}

impl Quote {
    /// The endpoint that fetches quote snapshots of `symbols`.
    pub fn endpoint(symbols: &Vec<&str>) -> (r: String)
        ensures
            r@ == quotes_endpoint(str_views(symbols@)),
    {
        let mut out = String::from_str("marketdata/quotes/");
        push_joined_strs(&mut out, symbols, ",");
        out
    }

    /// The endpoint that streams quotes of `symbols`.
    pub fn stream_endpoint(symbols: &Vec<&str>) -> (r: String)
        ensures
            r@ == stream_quotes_endpoint(str_views(symbols@)),
    {
        let mut out = String::from_str("marketdata/stream/quotes/");
        push_joined_strs(&mut out, symbols, ",");
        out
    }
}

} // verus!

verus! {

/// The quote endpoints (snapshot and stream) name every symbol asked for.
pub proof fn law_quote_endpoints_name_every_symbol(symbols: Seq<Seq<char>>, i: int)
    ensures
        has_prefix(quotes_endpoint(symbols), "marketdata/quotes/"@),
        has_prefix(stream_quotes_endpoint(symbols), "marketdata/stream/quotes/"@),
        0 <= i < symbols.len() ==> has_infix(quotes_endpoint(symbols), symbols[i]),
        0 <= i < symbols.len() ==> has_infix(stream_quotes_endpoint(symbols), symbols[i]),
{
    lemma_prefix_of_concat("marketdata/quotes/"@, join(symbols, ","@));
    lemma_prefix_of_concat("marketdata/stream/quotes/"@, join(symbols, ","@));
    if 0 <= i < symbols.len() {
        lemma_join_has_part(symbols, ","@, i);
        lemma_infix_prepend("marketdata/quotes/"@, join(symbols, ","@), symbols[i]);
        lemma_infix_prepend("marketdata/stream/quotes/"@, join(symbols, ","@), symbols[i]);
    }
}

} // verus!
