//! Market data: bars, quotes, option chains, market depth and symbol details.

/// Bars of market data and their queries.
pub mod bar;

pub use bar::{Bar, BarStatus, BarUnit, GetBarsQuery, SessionTemplate};

/// Options: expirations, spreads, chains and quotes.
pub mod options;

pub use bar::{GetBarsQueryBuilder, StreamBarsQuery, StreamBarsQueryBuilder};
pub use options::{
    OptionChain, OptionChainQuery, OptionChainQueryBuilder, OptionChainSide, OptionExpiration, OptionExpirationType, OptionQouteLeg, OptionQuote,
    OptionQuoteQuery, OptionQuoteQueryBuilder,
    OptionRiskRewardAnalysis, OptionSpreadLeg, OptionSpreadStrikes, OptionSpreadStrikesQuery,
    OptionSpreadStrikesQueryBuilder, OptionSpreadType, OptionStrikeRange, OptionTradeAction, OptionType,
    OptionsLeg,
};

/// Market depth.
pub mod market_depth;
/// Quotes.
pub mod quote;
/// Symbol details.
pub mod symbol;

pub use market_depth::{
    MarketDepthAggregate, MarketDepthAggregates, MarketDepthKind, MarketDepthQuote, MarketDepthQuotes,
    MarketDepthSide,
};
pub use quote::{MarketFlag, Quote};
pub use symbol::{Format, IncrementSchedule, IncrementStyle, PriceFormat, QuantityFormat, SymbolDetails};
