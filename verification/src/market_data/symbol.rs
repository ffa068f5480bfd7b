//! Details of symbols: their asset type and how prices and quantities are written.
use vstd::prelude::*;
use crate::accounting::orders::{AssetType, OptionType};
use crate::text::{
    has_infix, has_prefix, join, lemma_infix_prepend, lemma_join_has_part, lemma_prefix_of_concat,
    push_joined_strs, str_views,
};

verus! {

/// The details of a symbol.
#[derive(Clone, Debug)]
pub struct SymbolDetails {
    /// The type of financial instrument that a symbol represents.
    pub asset_type: AssetType,
    /// The country of the exchange where the symbol is listed.
    pub country: String,
    /// Displays the type of base currency for the selected symbol.
    pub currency: String,
    /// Displays the full name of the symbol.
    ///
    /// NOTE: Special characters may be formatted in unicode.
    pub description: String,
    /// Name of exchange where this symbol is traded.
    pub exchange: String,
    /// The UTC formatted expiration date of a future or option symbol,
    /// in the country the contract is traded in. The time portion of
    /// the value should be ignored.
    ///
    /// NOTE: Only for options and futures symbols.
    pub expiration_date: Option<String>,
    /// Displays the type of future contract the symbol represents.
    ///
    /// NOTE: Only for futures symbols.
    pub future_type: Option<String>,
    /// Defines whether an option is a call or a put.
    pub option_type: Option<OptionType>,
    /// Conveys number formatting information for symbol price fields.
    pub price_format: PriceFormat,
    /// Conveys number formatting information for symbol quantity fields.
    pub quantity_format: QuantityFormat,
    /// Displays the symbol root, e.g. `ES` for Futures symbol `@ESH25`,
    /// `OEX` for option `OEX 210129C1750`.
    pub root: String,
    /// The Strike Price for the Put or Call option.
    ///
    /// NOTE: Only for options symbols.
    pub strike_price: Option<String>,
    /// The Symbol name or abbreviation.
    pub symbol: String,
    /// The financial instrument on which an Options contract is
    /// based or derived. Can also apply to some Futures symbols,
    /// like continuous Futures contracts, e.g. `TYZ24` for `@TY`.
    pub underlying: String,
}

/// How the prices of a symbol are written.
#[derive(Clone, Debug)]
pub struct PriceFormat {
    /// The format of the price values.
    pub format: Format,
    /// The number of decimals precision.
    ///
    /// NOTE: Only applies to the format `Format::Decimals`.
    pub decimals: Option<String>,
    /// The denominator of the single fraction.
    ///
    /// NOTE: Only applies to the format `Format::Fraction`.
    pub fraction: Option<String>,
    /// The additional fraction of a fraction denominator.
    ///
    /// NOTE: Only applies to the format `Format::Fraction`.
    pub sub_fraction: Option<String>,
    /// The style of increment for price movements.
    pub increment_style: IncrementStyle,
    /// The decimal increment for all price movements.
    ///
    /// NOTE: Only applies to the simple increment style `IncrementStyle::Simple`.
    pub increment: Option<String>,
    /// The scheduling of increments.
    pub increment_schedule: Option<Vec<IncrementSchedule>>,
    /// The symbol's point value.
    pub point_value: String,
}

/// The formats of numbers.
#[derive(Clone, Copy, Debug, PartialEq, Eq)]
pub enum Format {
    /// Decimal
    Decimal,
    /// Fraction
    Fraction,
    /// Sub-fraction
    SubFraction,
}

/// How increments of a price or quantity are defined.
#[derive(Clone, Copy, Debug, PartialEq, Eq)]
pub enum IncrementStyle {
    /// One increment
    Simple,
    /// A schedule of increments
    Schedule,
}

/// One step of an increment schedule.
#[derive(Clone, Debug)]
pub struct IncrementSchedule {
    /// The increment.
    pub increment: String,
    /// The price at which this increment starts.
    pub starts_at: String,
}

/// How the quantities of a symbol are written.
#[derive(Clone, Debug)]
pub struct QuantityFormat {
    /// The format of the quantity.
    ///
    /// NOTE: `QuantityFormat` is always decimal format `Format::Decimal`
    pub format: Format,
    /// The number of decimals precision.
    pub decimals: String,
    /// The incremental style.
    pub increment_style: IncrementStyle,
    /// The decimal increment for all quantity movements.
    ///
    /// NOTE: Only applies to the simple increment style `IncrementStyle::Simple`.
    pub increment: Option<String>,
    /// The scheduling of increments.
    pub increment_schedule: Option<Vec<IncrementSchedule>>,
    /// The minimum quantity of an asset that can be traded.
    pub minimum_trade_quantity: String,
}

/// The endpoint that fetches the details of symbols.
pub open spec fn symbol_details_endpoint(symbols: Seq<Seq<char>>) -> Seq<char> {
    "marketdata/symbols/"@ + join(symbols, ","@)
}

impl SymbolDetails {
    /// The endpoint that fetches the details of `symbols`.
    pub fn endpoint(symbols: &Vec<&str>) -> (r: String)
        ensures
            r@ == symbol_details_endpoint(str_views(symbols@)),
    {
        let mut out = String::from_str("marketdata/symbols/");
        push_joined_strs(&mut out, symbols, ",");
        out
    }
}

} // verus!

verus! {

/// The symbol details endpoint names every symbol asked for.
pub proof fn law_symbol_endpoint_names_every_symbol(symbols: Seq<Seq<char>>, i: int)
    ensures
        has_prefix(symbol_details_endpoint(symbols), "marketdata/symbols/"@),
        0 <= i < symbols.len() ==> has_infix(symbol_details_endpoint(symbols), symbols[i]),
{
    lemma_prefix_of_concat("marketdata/symbols/"@, join(symbols, ","@));
    if 0 <= i < symbols.len() {
        lemma_join_has_part(symbols, ","@, i);
        lemma_infix_prepend("marketdata/symbols/"@, join(symbols, ","@), symbols[i]);
    }
}

} // verus!
