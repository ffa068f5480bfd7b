//! Options: expirations, spread types and strikes, chains, quotes and risk/reward analysis.
use vstd::prelude::*;
use crate::error::Error;
use crate::text::{
    bool_text, concat_text, decimal, has_infix, has_prefix, has_suffix, join, lemma_infix_of_concat,
    lemma_infix_extend, lemma_infix_prepend, lemma_join_has_part, lemma_prefix_of_concat,
    lemma_query_has_param, lemma_suffix_of_concat, opt_view, optional_param, push_bool, push_decimal,
    push_joined,
    push_optional_param, push_signed_decimal, signed_decimal, signed_decimal_param, string_views,
};

verus! {

/// An expiration date of option contracts.
#[derive(Clone, Debug)]
pub struct OptionExpiration {
    /// The date of the expiration.
    pub date: String,
    /// The type of the expiration.
    pub expiration_type: OptionExpirationType,
}

/// The types of option expiration.
#[derive(Clone, Copy, Debug, PartialEq, Eq)]
pub enum OptionExpirationType {
    /// Weekly
    Weekly,
    /// Monthly
    Monthly,
    /// Quarterly
    Quarterly,
    /// End of month
    EOM,
    /// Other
    Other,
}

/// The endpoint that lists the option expirations of an underlying symbol,
/// for a strike price when one is given (as its decimal text).
pub open spec fn option_expirations_endpoint(underlying: Seq<char>, strike_price: Option<Seq<char>>) -> Seq<char> {
    match strike_price {
        Some(strike) => "marketdata/options/expirations/"@ + underlying + "?strikePrice="@ + strike,
        None => "marketdata/options/expirations/"@ + underlying,
    }
}

impl OptionExpiration {
    /// The endpoint that lists the option expirations of `underlying_symbol`;
    /// `strike_price` is the decimal text of the strike price, if any.
    pub fn endpoint(underlying_symbol: &str, strike_price: Option<&str>) -> (r: String)
        ensures
            r@ == option_expirations_endpoint(
                underlying_symbol@,
                match strike_price { Some(s) => Some(s@), None => None },
            ),
    {
        let mut out = concat_text("marketdata/options/expirations/", underlying_symbol);
        match strike_price {
            Some(strike) => {
                out.append("?strikePrice=");
                out.append(strike);
            },
            None => {},
        }
        out
    }
}

/// The types of option spread.
#[derive(Clone, Copy, Debug, PartialEq, Eq)]
pub enum OptionSpreadType {
    /// A single option.
    Single,
    /// A call and a put at the same strike and expiration.
    Straddle,
    /// A call and a put at different strikes.
    Strangle,
    /// Two options of one type at different strikes.
    Vertical,
    /// Ratio back spread, one by two.
    RatioBack1x2,
    /// Ratio back spread, one by three.
    RatioBack1x3,
    /// Ratio back spread, two by three.
    RatioBack2x3,
    /// Butterfly.
    Butterfly,
    /// Iron butterfly.
    IronButterfly,
    /// Condor.
    Condor,
    /// Iron condor.
    IronCondor,
    /// Covered.
    Covered,
    /// Collar.
    Collar,
    /// Combo.
    Combo,
    /// Same strike, different expirations.
    Calendar,
    /// Different strikes and expirations.
    Diagonal,
}

/// The name of a spread type, as it is written in a query.
pub open spec fn spread_type_name(t: OptionSpreadType) -> Seq<char> {
    match t {
        OptionSpreadType::Single => "Single"@,
        OptionSpreadType::Straddle => "Straddle"@,
        OptionSpreadType::Strangle => "Strangle"@,
        OptionSpreadType::Vertical => "Vertical"@,
        OptionSpreadType::RatioBack1x2 => "RatioBack1x2"@,
        OptionSpreadType::RatioBack1x3 => "RatioBack1x3"@,
        OptionSpreadType::RatioBack2x3 => "RatioBack2x3"@,
        OptionSpreadType::Butterfly => "Butterfly"@,
        OptionSpreadType::IronButterfly => "IronButterfly"@,
        OptionSpreadType::Condor => "Condor"@,
        OptionSpreadType::IronCondor => "IronCondor"@,
        OptionSpreadType::Covered => "Covered"@,
        OptionSpreadType::Collar => "Collar"@,
        OptionSpreadType::Combo => "Combo"@,
        OptionSpreadType::Calendar => "Calendar"@,
        OptionSpreadType::Diagonal => "Diagonal"@,
    }
}

/// Every spread type, in the order of their declaration.
pub open spec fn all_spread_types() -> Seq<OptionSpreadType> {
    seq![
        OptionSpreadType::Single,
        OptionSpreadType::Straddle,
        OptionSpreadType::Strangle,
        OptionSpreadType::Vertical,
        OptionSpreadType::RatioBack1x2,
        OptionSpreadType::RatioBack1x3,
        OptionSpreadType::RatioBack2x3,
        OptionSpreadType::Butterfly,
        OptionSpreadType::IronButterfly,
        OptionSpreadType::Condor,
        OptionSpreadType::IronCondor,
        OptionSpreadType::Covered,
        OptionSpreadType::Collar,
        OptionSpreadType::Combo,
        OptionSpreadType::Calendar,
        OptionSpreadType::Diagonal,
    ]
}

/// Whether a spread type involves an interval of strike prices (as the API answers).
pub open spec fn spread_involves_strike_interval(t: OptionSpreadType) -> bool {
    !(t is Calendar || t is Combo || t is Covered || t is Single || t is Straddle)
}

/// Whether a spread type involves an interval of expirations (as the API answers).
pub open spec fn spread_involves_expiration_interval(t: OptionSpreadType) -> bool {
    t is Calendar || t is Diagonal
}

impl OptionSpreadType {
    /// All the option spread types.
    pub fn all() -> (r: Vec<OptionSpreadType>)
        ensures
            r@ == all_spread_types(),
    {
        let mut v: Vec<OptionSpreadType> = Vec::new();
        v.push(OptionSpreadType::Single);
        v.push(OptionSpreadType::Straddle);
        v.push(OptionSpreadType::Strangle);
        v.push(OptionSpreadType::Vertical);
        v.push(OptionSpreadType::RatioBack1x2);
        v.push(OptionSpreadType::RatioBack1x3);
        v.push(OptionSpreadType::RatioBack2x3);
        v.push(OptionSpreadType::Butterfly);
        v.push(OptionSpreadType::IronButterfly);
        v.push(OptionSpreadType::Condor);
        v.push(OptionSpreadType::IronCondor);
        v.push(OptionSpreadType::Covered);
        v.push(OptionSpreadType::Collar);
        v.push(OptionSpreadType::Combo);
        v.push(OptionSpreadType::Calendar);
        v.push(OptionSpreadType::Diagonal);
        assert(v@ =~= all_spread_types());
        v
    }

    /// Does the spread type involve an interval of strike prices?
    ///
    /// NOTE: This is false for `Combo`, as the API answers, though a combo
    /// may consist of several strikes.
    pub fn involves_strike_interval(&self) -> (r: bool)
        ensures
            r == spread_involves_strike_interval(*self),
    {
        match self {
            OptionSpreadType::Calendar | OptionSpreadType::Combo | OptionSpreadType::Covered
            | OptionSpreadType::Single | OptionSpreadType::Straddle => false,
            _ => true,
        }
    }

    /// Does the spread type involve an interval of expirations?
    ///
    /// NOTE: This is false for `Combo`, as the API answers, though a combo
    /// may consist of several expirations.
    pub fn involves_expiration_interval(&self) -> (r: bool)
        ensures
            r == spread_involves_expiration_interval(*self),
    {
        match self {
            OptionSpreadType::Calendar | OptionSpreadType::Diagonal => true,
            _ => false,
        }
    }

    /// The name of the spread type, as it is written in a query.
    pub fn name(&self) -> (r: &'static str)
        ensures
            r@ == spread_type_name(*self),
    {
        match self {
            OptionSpreadType::Single => "Single",
            OptionSpreadType::Straddle => "Straddle",
            OptionSpreadType::Strangle => "Strangle",
            OptionSpreadType::Vertical => "Vertical",
            OptionSpreadType::RatioBack1x2 => "RatioBack1x2",
            OptionSpreadType::RatioBack1x3 => "RatioBack1x3",
            OptionSpreadType::RatioBack2x3 => "RatioBack2x3",
            OptionSpreadType::Butterfly => "Butterfly",
            OptionSpreadType::IronButterfly => "IronButterfly",
            OptionSpreadType::Condor => "Condor",
            OptionSpreadType::IronCondor => "IronCondor",
            OptionSpreadType::Covered => "Covered",
            OptionSpreadType::Collar => "Collar",
            OptionSpreadType::Combo => "Combo",
            OptionSpreadType::Calendar => "Calendar",
            OptionSpreadType::Diagonal => "Diagonal",
        }
    }
}

/// `all` lists every spread type, each exactly once.
pub proof fn law_all_spread_types_complete(t: OptionSpreadType)
    ensures
        all_spread_types().contains(t),
        all_spread_types().no_duplicates(),
        all_spread_types().len() == 16,
{
    let s = all_spread_types();
    match t {
        OptionSpreadType::Single => assert(s[0] == t),
        OptionSpreadType::Straddle => assert(s[1] == t),
        OptionSpreadType::Strangle => assert(s[2] == t),
        OptionSpreadType::Vertical => assert(s[3] == t),
        OptionSpreadType::RatioBack1x2 => assert(s[4] == t),
        OptionSpreadType::RatioBack1x3 => assert(s[5] == t),
        OptionSpreadType::RatioBack2x3 => assert(s[6] == t),
        OptionSpreadType::Butterfly => assert(s[7] == t),
        OptionSpreadType::IronButterfly => assert(s[8] == t),
        OptionSpreadType::Condor => assert(s[9] == t),
        OptionSpreadType::IronCondor => assert(s[10] == t),
        OptionSpreadType::Covered => assert(s[11] == t),
        OptionSpreadType::Collar => assert(s[12] == t),
        OptionSpreadType::Combo => assert(s[13] == t),
        OptionSpreadType::Calendar => assert(s[14] == t),
        OptionSpreadType::Diagonal => assert(s[15] == t),
    }
    assert forall|i: int, j: int| 0 <= i < s.len() && 0 <= j < s.len() && i != j implies s[i] != s[j] by {
        assert(s[i] == s[i]);
    }
}

/// The analysis of the risk and reward of an options spread.
#[derive(Clone, Debug)]
pub struct OptionRiskRewardAnalysis {
    /// Whether the maximum gain is unbounded.
    pub max_gain_is_infinite: bool,
    /// The adjusted maximum gain.
    pub adjusted_max_gain: String,
    /// Whether the maximum loss is unbounded.
    pub max_loss_is_infinite: bool,
    /// The adjusted maximum loss.
    pub adjusted_max_loss: String,
    /// The breakeven points of the spread.
    pub breakeven_points: Vec<String>,
}

/// A leg of a spread whose risk and reward is analysed.
#[derive(Clone, Debug)]
pub struct OptionsLeg {
    /// The option symbol.
    pub symbol: String,
    /// The number of contracts.
    pub quantity: i32,
    /// Buy or sell.
    pub trade_action: OptionTradeAction,
}

/// Buy or sell, for an options leg.
#[derive(Clone, Copy, Debug, PartialEq, Eq)]
pub enum OptionTradeAction {
    /// Buy
    Buy,
    /// Sell
    Sell,
}

/// The endpoint that analyses the risk and reward of a spread.
pub fn risk_reward_endpoint() -> (r: &'static str)
    ensures
        r@ == "marketdata/options/riskreward"@,
{
    "marketdata/options/riskreward"
}

/// The available strikes for an options spread.
#[derive(Clone, Debug)]
pub struct OptionSpreadStrikes {
    /// The spread type of these strikes.
    pub spread_type: OptionSpreadType,
    /// For each spread, its strike prices.
    pub strikes: Vec<Vec<String>>,
}

/// The query that fetches [`OptionSpreadStrikes`].
#[derive(Clone, Debug)]
pub struct OptionSpreadStrikesQuery {
    /// The symbol of the underlying security.
    pub underlying: String,
    /// The type of spread.
    pub spread_type: OptionSpreadType,
    /// The interval between the strikes of a spread (1 for consecutive strikes).
    pub strike_interval: i32,
    /// The expiration date of the contracts.
    pub expiration: Option<String>,
    /// The second expiration date (calendar and diagonal spreads).
    pub expiration2: Option<String>,
}

/// The plain values of an [`OptionSpreadStrikesQuery`].
pub struct OptionSpreadStrikesQueryView {
    pub underlying: Seq<char>,
    pub spread_type: OptionSpreadType,
    pub strike_interval: i32,
    pub expiration: Option<Seq<char>>,
    pub expiration2: Option<Seq<char>>,
}

impl View for OptionSpreadStrikesQuery {
    type V = OptionSpreadStrikesQueryView;

    open spec fn view(&self) -> OptionSpreadStrikesQueryView {
        OptionSpreadStrikesQueryView {
            underlying: self.underlying@,
            spread_type: self.spread_type,
            strike_interval: self.strike_interval,
            expiration: opt_view(self.expiration),
            expiration2: opt_view(self.expiration2),
        }
    }
}

/// The endpoint that fetches the strikes of a query: the second expiration
/// is written only when the first one is.
pub open spec fn spread_strikes_endpoint(q: OptionSpreadStrikesQueryView) -> Seq<char> {
    "marketdata/options/strikes/"@ + q.underlying + "?spreadType="@ + spread_type_name(q.spread_type)
        + "&strikeInterval="@ + signed_decimal(q.strike_interval as int)
        + match q.expiration {
            Some(date) => "&expiration="@ + date + match q.expiration2 {
                Some(date2) => "&expiration2="@ + date2,
                None => Seq::<char>::empty(),
            },
            None => Seq::<char>::empty(),
        }
}

impl OptionSpreadStrikesQuery {
    /// The endpoint that fetches the strikes of this query.
    pub fn endpoint(&self) -> (r: String)
        ensures
            r@ == spread_strikes_endpoint(self@),
    {
        let mut out = concat_text("marketdata/options/strikes/", self.underlying.as_str());
        out.append("?spreadType=");
        out.append(self.spread_type.name());
        out.append("&strikeInterval=");
        push_signed_decimal(&mut out, self.strike_interval as i64);
        let ghost base = out@;
        match &self.expiration {
            Some(date) => {
                out.append("&expiration=");
                out.append(date.as_str());
                let ghost mid = out@;
                match &self.expiration2 {
                    Some(date2) => {
                        out.append("&expiration2=");
                        out.append(date2.as_str());
                    },
                    None => {},
                }
            },
            None => {},
        }
        assert(out@ =~= spread_strikes_endpoint(self@));
        out
    }
}

/// Builder for an [`OptionSpreadStrikesQuery`].
#[derive(Clone, Debug, Default)]
pub struct OptionSpreadStrikesQueryBuilder {
    underlying: Option<String>,
    spread_type: Option<OptionSpreadType>,
    strike_interval: Option<i32>,
    expiration: Option<String>,
    expiration2: Option<String>,
}

/// The plain values of an [`OptionSpreadStrikesQueryBuilder`].
pub struct OptionSpreadStrikesQueryBuilderView {
    pub underlying: Option<Seq<char>>,
    pub spread_type: Option<OptionSpreadType>,
    pub strike_interval: Option<i32>,
    pub expiration: Option<Seq<char>>,
    pub expiration2: Option<Seq<char>>,
}

impl View for OptionSpreadStrikesQueryBuilder {
    type V = OptionSpreadStrikesQueryBuilderView;

    closed spec fn view(&self) -> OptionSpreadStrikesQueryBuilderView {
        OptionSpreadStrikesQueryBuilderView {
            underlying: opt_view(self.underlying),
            spread_type: self.spread_type,
            strike_interval: self.strike_interval,
            expiration: opt_view(self.expiration),
            expiration2: opt_view(self.expiration2),
        }
    }
}

/// The strikes query of a builder with an underlying symbol: a single-option
/// spread and consecutive strikes unless set otherwise.
pub open spec fn spread_strikes_query_from(b: OptionSpreadStrikesQueryBuilderView) -> OptionSpreadStrikesQueryView {
    OptionSpreadStrikesQueryView {
        underlying: b.underlying->0,
        spread_type: match b.spread_type { Some(t) => t, None => OptionSpreadType::Single },
        strike_interval: match b.strike_interval { Some(i) => i, None => 1i32 },
        expiration: b.expiration,
        expiration2: b.expiration2,
    }
}

impl OptionSpreadStrikesQueryBuilder {
    /// Create a new builder with nothing set.
    pub fn new() -> (r: Self)
        ensures
            r@ == (OptionSpreadStrikesQueryBuilderView {
                underlying: None,
                spread_type: None,
                strike_interval: None,
                expiration: None,
                expiration2: None,
            }),
    {
        OptionSpreadStrikesQueryBuilder {
            underlying: None,
            spread_type: None,
            strike_interval: None,
            expiration: None,
            expiration2: None,
        }
    }

    /// Set the underlying symbol.
    pub fn underlying(self, symbol: &str) -> (r: Self)
        ensures
            r@ == (OptionSpreadStrikesQueryBuilderView { underlying: Some(symbol@), ..self@ }),
    {
        OptionSpreadStrikesQueryBuilder { underlying: Some(String::from_str(symbol)), ..self }
    }

    /// Set the spread type.
    pub fn spread_type(self, spread: OptionSpreadType) -> (r: Self)
        ensures
            r@ == (OptionSpreadStrikesQueryBuilderView { spread_type: Some(spread), ..self@ }),
    {
        OptionSpreadStrikesQueryBuilder { spread_type: Some(spread), ..self }
    }

    /// Set the interval between the strikes of a spread.
    pub fn strike_interval(self, interval: i32) -> (r: Self)
        ensures
            r@ == (OptionSpreadStrikesQueryBuilderView { strike_interval: Some(interval), ..self@ }),
    {
        OptionSpreadStrikesQueryBuilder { strike_interval: Some(interval), ..self }
    }

    /// Set the expiration date.
    pub fn expiration(self, date: &str) -> (r: Self)
        ensures
            r@ == (OptionSpreadStrikesQueryBuilderView { expiration: Some(date@), ..self@ }),
    {
        OptionSpreadStrikesQueryBuilder { expiration: Some(String::from_str(date)), ..self }
    }

    /// Set the second expiration date.
    pub fn expiration2(self, date: &str) -> (r: Self)
        ensures
            r@ == (OptionSpreadStrikesQueryBuilderView { expiration2: Some(date@), ..self@ }),
    {
        OptionSpreadStrikesQueryBuilder { expiration2: Some(String::from_str(date)), ..self }
    }

    /// Finish building the [`OptionSpreadStrikesQuery`].
    ///
    /// NOTE: The underlying symbol is required.
    pub fn build(self) -> (r: Result<OptionSpreadStrikesQuery, Error>)
        ensures
            match r {
                Ok(q) => self@.underlying is Some && q@ == spread_strikes_query_from(self@),
                Err(e) => self@.underlying is None && e is SymbolNotSet,
            },
            r matches Ok(q) ==> strikes_query_keeps_builder_values(self@, q@),
    {
        let underlying = match self.underlying {
            Some(u) => u,
            None => return Err(Error::SymbolNotSet),
        };
        Ok(OptionSpreadStrikesQuery {
            underlying,
            spread_type: match self.spread_type { Some(t) => t, None => OptionSpreadType::Single },
            strike_interval: match self.strike_interval { Some(i) => i, None => 1 },
            expiration: self.expiration,
            expiration2: self.expiration2,
        })
    }
}

/// A spread of an option chain, with its quote and greeks.
#[derive(Clone, Debug)]
pub struct OptionChain {
    /// The expected change in an option position’s value resulting
    /// from a one point increase in the price of the underlying security.
    pub delta: Option<String>,
    /// The expected decline in an option position’s value resulting
    /// from the passage of one day’s time, holding all other variables
    /// (price of the underlying, volatility, etc.) constant.
    pub theta: Option<String>,
    /// The expected change in an option position’s delta resulting
    /// from a one point increase in the price of the underlying security.
    pub gamma: Option<String>,
    /// The expected change in an option position’s value resulting
    /// from an increase of one percentage point in the risk-free
    /// interest rate (e.g. an increase from 3% to 4%).
    pub rho: Option<String>,
    /// The expected change in an option position’s value resulting
    /// from an increase of one percentage point in the volatility of
    /// the underlying security (e.g. an increase from 26% to 27%).
    pub vega: Option<String>,
    /// The volatility of the underlying implied by an option
    /// position’s current price.
    pub implied_volatility: Option<String>,
    /// The value of an option position exclusive of the position’s
    /// time value. The value of the option position if it were to
    /// expire immediately.
    pub intrinsic_value: String,
    /// The time value of an option position.
    ///
    /// NOTE: The market value of an option position minus
    /// the position’s intrinsic value.
    pub extrinsic_value: String,
    /// The value of an option position based on a theoretical model
    /// of option prices (the Bjerksund-Stensland model).
    ///
    /// NOTE: Calculated using volatility of the underlying.
    pub theoretical_value: String,
    /// The calculated probability that an option position will have
    /// intrinsic value at expiration.
    ///
    /// NOTE: Calculated using volatility of the underlying.
    pub probability_itm: Option<String>,
    /// The calculated probability that an option position will not have
    /// intrinsic value at expiration.
    ///
    /// NOTE: Calculated using volatility of the underlying.
    pub probability_otm: Option<String>,
    /// The calculated probability that an option position will have
    /// a value at expiration that is equal to or greater than the
    /// position’s current cost.
    ///
    /// NOTE: Calculated using volatility of the underlying.
    pub probability_be: Option<String>,
    /// The calculated probability that an option position will have
    /// intrinsic value at expiration.
    ///
    /// NOTE: Calculated using implied volatility.
    pub probability_itm_iv: Option<String>,
    /// The calculated probability that an option position will not
    /// have intrinsic value at expiration.
    ///
    /// NOTE: Calculated using implied volatility.
    pub probability_otm_iv: Option<String>,
    /// The calculated probability that an option position will have a
    /// value at expiration that is equal to or greater than the position’s
    /// current cost.
    ///
    /// NOTE: Calculated using implied volatility.
    pub probability_be_iv: Option<String>,
    /// The value of an option position based on a theoretical model of
    /// option prices (the Bjerksund-Stensland model).
    ///
    /// NOTE: Calculated using implied volatility.
    pub theoretical_value_iv: Option<String>,
    /// Total number of open contracts for the option spread.
    ///
    /// NOTE: This value is updated daily.
    pub daily_open_interest: i32,
    /// Ask price. The price a seller is willing to accept for the option spread.
    pub ask: String,
    /// Bid price. The price a buyer is willing to pay for the option spread.
    pub bid: String,
    /// Average between `ask` and `bid`.
    pub mid: String,
    /// Amount of contracts at the given `ask` price.
    pub ask_size: i32,
    /// Amount of contracts at the given `bid` price.
    pub bid_size: i32,
    /// The last traded price for the option spread.
    ///
    /// NOTE: This value only updates during the official market session.
    pub close: String,
    /// Today's highest price for the option spread.
    pub high: String,
    /// The last traded price for the option spread.
    pub last: String,
    /// Today's lowest traded price for the option spread.
    pub low: String,
    /// Difference between prior Close price and current Close price for the
    /// option spread.
    pub net_change: String,
    /// Percentage changed between prior `close` price and current `close` price
    /// for the option spread.
    pub net_change_pct: String,
    /// The initial price for the option spread during the official market session.
    pub open: String,
    /// Prior day's Closing price.
    pub previous_close: String,
    /// The number of contracts traded today.
    pub volume: i32,
    /// The side of the option chain.
    pub side: OptionChainSide,
    /// The strike prices for the option contracts in the legs of this spread.
    pub strikes: Vec<String>,
    /// The legs of the option spread.
    pub legs: Vec<OptionSpreadLeg>,
}

/// The strike ranges of an option chain.
#[derive(Clone, Copy, Debug, PartialEq, Eq)]
pub enum OptionStrikeRange {
    /// All strikes
    All,
    /// In the money strikes
    ITM,
    /// Out of the money strikes
    OTM,
}

/// A leg of an option spread.
#[derive(Clone, Debug)]
pub struct OptionSpreadLeg {
    /// The option symbol.
    pub symbol: String,
    /// The ratio of the leg in the spread.
    pub ratio: i32,
    /// The strike price.
    pub strike_price: String,
    /// The expiration date.
    pub expiration: String,
    /// The option type.
    pub option_type: OptionType,
    /// The asset type.
    pub asset_type: String,
}

/// The side of an option chain.
#[derive(Clone, Copy, Debug, PartialEq, Eq)]
pub enum OptionChainSide {
    /// Calls
    Call,
    /// Puts
    Put,
    /// Both
    Both,
}

/// The option types of a chain query.
#[derive(Clone, Copy, Debug, PartialEq, Eq)]
pub enum OptionType {
    /// Calls
    Call,
    /// Puts
    Put,
    /// Both
    All,
}

/// A quote of an options spread, with its greeks.
#[derive(Clone, Debug)]
pub struct OptionQuote {
    /// The expected change in an option position’s value resulting
    /// from a one point increase in the price of the underlying security.
    pub delta: Option<String>,
    /// The expected decline in an option position’s value resulting
    /// from the passage of one day’s time, holding all other variables
    /// (price of the underlying, volatility, etc.) constant.
    pub theta: Option<String>,
    /// The expected change in an option position’s delta resulting
    /// from a one point increase in the price of the underlying security.
    pub gamma: Option<String>,
    /// The expected change in an option position’s value resulting
    /// from an increase of one percentage point in the risk-free
    /// interest rate (e.g. an increase from 3% to 4%).
    pub rho: Option<String>,
    /// The expected change in an option position’s value resulting
    /// from an increase of one percentage point in the volatility of
    /// the underlying security (e.g. an increase from 26% to 27%).
    pub vega: Option<String>,
    /// The volatility of the underlying implied by an option
    /// position’s current price.
    pub implied_volatility: Option<String>,
    /// The value of an option position exclusive of the position’s
    /// time value. The value of the option position if it were to
    /// expire immediately.
    pub intrinsic_value: String,
    /// The time value of an option position.
    ///
    /// NOTE: The market value of an option position minus
    /// the position’s intrinsic value.
    pub extrinsic_value: String,
    /// The value of an option position based on a theoretical model
    /// of option prices (the Bjerksund-Stensland model).
    ///
    /// NOTE: Calculated using volatility of the underlying.
    pub theoretical_value: String,
    /// The calculated probability that an option position will have
    /// intrinsic value at expiration.
    ///
    /// NOTE: Calculated using volatility of the underlying.
    pub probability_itm: Option<String>,
    /// The calculated probability that an option position will not have
    /// intrinsic value at expiration.
    ///
    /// NOTE: Calculated using volatility of the underlying.
    pub probability_otm: Option<String>,
    /// The calculated probability that an option position will have
    /// a value at expiration that is equal to or greater than the
    /// position’s current cost.
    ///
    /// NOTE: Calculated using volatility of the underlying.
    pub probability_be: Option<String>,
    /// The calculated probability that an option position will have
    /// intrinsic value at expiration.
    ///
    /// NOTE: Calculated using implied volatility.
    pub probability_itm_iv: Option<String>,
    /// The calculated probability that an option position will not
    /// have intrinsic value at expiration.
    ///
    /// NOTE: Calculated using implied volatility.
    pub probability_otm_iv: Option<String>,
    /// The calculated probability that an option position will have a
    /// value at expiration that is equal to or greater than the position’s
    /// current cost.
    ///
    /// NOTE: Calculated using implied volatility.
    pub probability_be_iv: Option<String>,
    /// The value of an option position based on a theoretical model of
    /// option prices (the Bjerksund-Stensland model).
    ///
    /// NOTE: Calculated using implied volatility.
    pub theoretical_value_iv: Option<String>,
    /// Total number of open contracts for the option spread.
    ///
    /// NOTE: This value is updated daily.
    pub daily_open_interest: i32,
    /// Ask price. The price a seller is willing to accept for the option spread.
    pub ask: String,
    /// Bid price. The price a buyer is willing to pay for the option spread.
    pub bid: String,
    /// Average between `ask` and `bid`.
    pub mid: String,
    /// Amount of contracts at the given `ask` price.
    pub ask_size: i32,
    /// Amount of contracts at the given `bid` price.
    pub bid_size: i32,
    /// The last traded price for the option spread.
    ///
    /// NOTE: This value only updates during the official market session.
    pub close: String,
    /// Today's highest price for the option spread.
    pub high: String,
    /// The last traded price for the option spread.
    pub last: String,
    /// Today's lowest traded price for the option spread.
    pub low: String,
    /// Difference between prior Close price and current Close price for the
    /// option spread.
    pub net_change: String,
    /// Percentage changed between prior `close` price and current `close` price
    /// for the option spread.
    pub net_change_pct: String,
    /// The initial price for the option spread during the official market session.
    pub open: String,
    /// Prior day's Closing price.
    pub previous_close: String,
    /// The number of contracts traded today.
    pub volume: i32,
    /// The side of the option chain.
    pub side: OptionChainSide,
    /// The strike prices for the option contracts in the legs of this spread.
    pub strikes: Vec<String>,
    /// The legs of the option spread.
    pub legs: Vec<OptionSpreadLeg>,
}

/// A leg of an option quote query.
#[derive(Clone, Debug)]
pub struct OptionQouteLeg {
    /// The option symbol.
    pub symbol: String,
    /// The ratio of the leg.
    pub ratio: i32,
}

} // verus!

verus! {

/// The name of a strike range, as it is written in a query.
pub open spec fn strike_range_name(r: OptionStrikeRange) -> Seq<char> {
    match r {
        OptionStrikeRange::All => "All"@,
        OptionStrikeRange::ITM => "ITM"@,
        OptionStrikeRange::OTM => "OTM"@,
    }
}

/// The name of an option type, as it is written in a query.
pub open spec fn option_type_name(t: OptionType) -> Seq<char> {
    match t {
        OptionType::Call => "Call"@,
        OptionType::Put => "Put"@,
        OptionType::All => "All"@,
    }
}

impl OptionStrikeRange {
    /// The name of the strike range, as it is written in a query.
    pub fn name(&self) -> (r: &'static str)
        ensures
            r@ == strike_range_name(*self),
    {
        match self {
            OptionStrikeRange::All => "All",
            OptionStrikeRange::ITM => "ITM",
            OptionStrikeRange::OTM => "OTM",
        }
    }
}

impl OptionType {
    /// The name of the option type, as it is written in a query.
    pub fn name(&self) -> (r: &'static str)
        ensures
            r@ == option_type_name(*self),
    {
        match self {
            OptionType::Call => "Call",
            OptionType::Put => "Put",
            OptionType::All => "All",
        }
    }
}

/// The query used to stream an options chain.
///
/// The risk free rate and the price center are kept as the decimal text that
/// the query carries, such as `0.02`.
#[derive(Clone, Debug)]
pub struct OptionChainQuery {
    /// The symbol for the underlying security on which the option contracts are based.
    pub underlying: String,
    /// Date on which the option contract expires; defaults to the next expiration.
    pub expiration: Option<String>,
    /// Second contract expiration date, for Calendar and Diagonal spreads.
    pub expiration2: Option<String>,
    /// The number of spreads to display above and below the price center.
    pub strike_proximity: i32,
    /// The spread type to use.
    pub spread_type: OptionSpreadType,
    /// The theoretical rate of return of an investment with zero risk, as decimal text.
    pub risk_free_rate: Option<String>,
    /// The strike price center, as decimal text.
    pub price_center: Option<String>,
    /// The interval between the strike prices in a spread (1 for consecutive strikes).
    pub strike_interval: i32,
    /// Whether greeks are returned.
    pub enable_greeks: bool,
    /// The range of strikes to filter the chain to.
    pub strike_range: OptionStrikeRange,
    /// The option type to filter the chain to.
    pub option_type: OptionType,
}

/// The plain values of an [`OptionChainQuery`].
pub struct OptionChainQueryView {
    pub underlying: Seq<char>,
    pub expiration: Option<Seq<char>>,
    pub expiration2: Option<Seq<char>>,
    pub strike_proximity: i32,
    pub spread_type: OptionSpreadType,
    pub risk_free_rate: Option<Seq<char>>,
    pub price_center: Option<Seq<char>>,
    pub strike_interval: i32,
    pub enable_greeks: bool,
    pub strike_range: OptionStrikeRange,
    pub option_type: OptionType,
}

impl View for OptionChainQuery {
    type V = OptionChainQueryView;

    open spec fn view(&self) -> OptionChainQueryView {
        OptionChainQueryView {
            underlying: self.underlying@,
            expiration: opt_view(self.expiration),
            expiration2: opt_view(self.expiration2),
            strike_proximity: self.strike_proximity,
            spread_type: self.spread_type,
            risk_free_rate: opt_view(self.risk_free_rate),
            price_center: opt_view(self.price_center),
            strike_interval: self.strike_interval,
            enable_greeks: self.enable_greeks,
            strike_range: self.strike_range,
            option_type: self.option_type,
        }
    }
}

/// The parameters of an option chain query, in the order they are written.
pub open spec fn option_chain_params(q: OptionChainQueryView) -> Seq<Seq<char>> {
    seq![
        "strikeInterval="@ + signed_decimal(q.strike_interval as int),
        "strikeProximity="@ + signed_decimal(q.strike_proximity as int),
        "spreadType="@ + spread_type_name(q.spread_type),
        "enableGreeks="@ + bool_text(q.enable_greeks),
        "strikeRange="@ + strike_range_name(q.strike_range),
        "optionType="@ + option_type_name(q.option_type),
    ]
        + optional_param("expiration="@, q.expiration)
        + optional_param("expiration2="@, q.expiration2)
        + optional_param("riskFreeRate="@, q.risk_free_rate)
        + optional_param("priceCenter="@, q.price_center)
}

/// The query string of an option chain query: `?` and its parameters joined by `&`.
pub open spec fn option_chain_query_text(q: OptionChainQueryView) -> Seq<char> {
    "?"@ + join(option_chain_params(q), "&"@)
}

/// The endpoint that streams the option chain of a query.
pub open spec fn option_chain_endpoint(q: OptionChainQueryView) -> Seq<char> {
    "marketdata/stream/options/chains/"@ + q.underlying + option_chain_query_text(q)
}

impl OptionChainQuery {
    /// Convert the query into a query param string.
    pub fn as_query_string(&self) -> (r: String)
        ensures
            r@ == option_chain_query_text(self@),
    {
        let mut params: Vec<String> = Vec::new();
        params.push(signed_decimal_param("strikeInterval=", self.strike_interval as i64));
        params.push(signed_decimal_param("strikeProximity=", self.strike_proximity as i64));
        params.push(concat_text("spreadType=", self.spread_type.name()));
        let mut greeks = String::from_str("enableGreeks=");
        push_bool(&mut greeks, self.enable_greeks);
        params.push(greeks);
        params.push(concat_text("strikeRange=", self.strike_range.name()));
        params.push(concat_text("optionType=", self.option_type.name()));
        let ghost fixed = string_views(params@);
        push_optional_param(&mut params, "expiration=", &self.expiration);
        push_optional_param(&mut params, "expiration2=", &self.expiration2);
        push_optional_param(&mut params, "riskFreeRate=", &self.risk_free_rate);
        push_optional_param(&mut params, "priceCenter=", &self.price_center);
        proof {
            assert(fixed =~= seq![
                "strikeInterval="@ + signed_decimal(self.strike_interval as int),
                "strikeProximity="@ + signed_decimal(self.strike_proximity as int),
                "spreadType="@ + spread_type_name(self.spread_type),
                "enableGreeks="@ + bool_text(self.enable_greeks),
                "strikeRange="@ + strike_range_name(self.strike_range),
                "optionType="@ + option_type_name(self.option_type),
            ]);
            assert(string_views(params@) =~= option_chain_params(self@));
        }
        let mut out = String::from_str("?");
        push_joined(&mut out, &params, "&");
        out
    }

    /// The endpoint that streams the option chain of this query.
    pub fn endpoint(&self) -> (r: String)
        ensures
            r@ == option_chain_endpoint(self@),
    {
        let mut out = concat_text("marketdata/stream/options/chains/", self.underlying.as_str());
        let qs = self.as_query_string();
        out.append(qs.as_str());
        out
    }
}

/// Builder for [`OptionChainQuery`].
#[derive(Clone, Debug, Default)]
pub struct OptionChainQueryBuilder {
    underlying: Option<String>,
    expiration: Option<String>,
    expiration2: Option<String>,
    strike_proximity: Option<i32>,
    spread_type: Option<OptionSpreadType>,
    risk_free_rate: Option<String>,
    price_center: Option<String>,
    strike_interval: Option<i32>,
    enable_greeks: Option<bool>,
    strike_range: Option<OptionStrikeRange>,
    option_type: Option<OptionType>,
}

/// The plain values of an [`OptionChainQueryBuilder`]: what has been set so far.
pub struct OptionChainQueryBuilderView {
    pub underlying: Option<Seq<char>>,
    pub expiration: Option<Seq<char>>,
    pub expiration2: Option<Seq<char>>,
    pub strike_proximity: Option<i32>,
    pub spread_type: Option<OptionSpreadType>,
    pub risk_free_rate: Option<Seq<char>>,
    pub price_center: Option<Seq<char>>,
    pub strike_interval: Option<i32>,
    pub enable_greeks: Option<bool>,
    pub strike_range: Option<OptionStrikeRange>,
    pub option_type: Option<OptionType>,
}

impl View for OptionChainQueryBuilder {
    type V = OptionChainQueryBuilderView;

    closed spec fn view(&self) -> OptionChainQueryBuilderView {
        OptionChainQueryBuilderView {
            underlying: opt_view(self.underlying),
            expiration: opt_view(self.expiration),
            expiration2: opt_view(self.expiration2),
            strike_proximity: self.strike_proximity,
            spread_type: self.spread_type,
            risk_free_rate: opt_view(self.risk_free_rate),
            price_center: opt_view(self.price_center),
            strike_interval: self.strike_interval,
            enable_greeks: self.enable_greeks,
            strike_range: self.strike_range,
            option_type: self.option_type,
        }
    }
}

/// The chain query of a builder with an underlying symbol: unset values take
/// their defaults (all strikes, all option types, greeks on, consecutive
/// strikes, single-option spreads, a proximity of 5).
pub open spec fn option_chain_query_from(b: OptionChainQueryBuilderView) -> OptionChainQueryView {
    OptionChainQueryView {
        underlying: b.underlying->0,
        expiration: b.expiration,
        expiration2: b.expiration2,
        strike_proximity: match b.strike_proximity { Some(p) => p, None => 5i32 },
        spread_type: match b.spread_type { Some(t) => t, None => OptionSpreadType::Single },
        risk_free_rate: b.risk_free_rate,
        price_center: b.price_center,
        strike_interval: match b.strike_interval { Some(i) => i, None => 1i32 },
        enable_greeks: match b.enable_greeks { Some(g) => g, None => true },
        strike_range: match b.strike_range { Some(r) => r, None => OptionStrikeRange::All },
        option_type: match b.option_type { Some(t) => t, None => OptionType::All },
    }
}

impl OptionChainQueryBuilder {
    /// Create a new builder with nothing set.
    pub fn new() -> (r: Self)
        ensures
            r@ == (OptionChainQueryBuilderView {
                underlying: None,
                expiration: None,
                expiration2: None,
                strike_proximity: None,
                spread_type: None,
                risk_free_rate: None,
                price_center: None,
                strike_interval: None,
                enable_greeks: None,
                strike_range: None,
                option_type: None,
            }),
    {
        OptionChainQueryBuilder {
            underlying: None,
            expiration: None,
            expiration2: None,
            strike_proximity: None,
            spread_type: None,
            risk_free_rate: None,
            price_center: None,
            strike_interval: None,
            enable_greeks: None,
            strike_range: None,
            option_type: None,
        }
    }

    /// Set the symbol of the underlying security. Required before `build`.
    pub fn underlying(self, symbol: &str) -> (r: Self)
        ensures
            r@ == (OptionChainQueryBuilderView { underlying: Some(symbol@), ..self@ }),
    {
        OptionChainQueryBuilder { underlying: Some(String::from_str(symbol)), ..self }
    }

    /// Set the expiration date.
    pub fn expiration(self, date: &str) -> (r: Self)
        ensures
            r@ == (OptionChainQueryBuilderView { expiration: Some(date@), ..self@ }),
    {
        OptionChainQueryBuilder { expiration: Some(String::from_str(date)), ..self }
    }

    /// Set the second expiration date (Calendar and Diagonal spreads).
    pub fn expiration2(self, date: &str) -> (r: Self)
        ensures
            r@ == (OptionChainQueryBuilderView { expiration2: Some(date@), ..self@ }),
    {
        OptionChainQueryBuilder { expiration2: Some(String::from_str(date)), ..self }
    }

    /// Set the strike proximity (of the price center).
    pub fn strike_proximity(self, proximity: i32) -> (r: Self)
        ensures
            r@ == (OptionChainQueryBuilderView { strike_proximity: Some(proximity), ..self@ }),
    {
        OptionChainQueryBuilder { strike_proximity: Some(proximity), ..self }
    }

    /// Set the spread type.
    pub fn spread_type(self, spread_type: OptionSpreadType) -> (r: Self)
        ensures
            r@ == (OptionChainQueryBuilderView { spread_type: Some(spread_type), ..self@ }),
    {
        OptionChainQueryBuilder { spread_type: Some(spread_type), ..self }
    }

    /// Set the risk free rate, as decimal text (`0.02` for 2%).
    pub fn risk_free_rate(self, rate: &str) -> (r: Self)
        ensures
            r@ == (OptionChainQueryBuilderView { risk_free_rate: Some(rate@), ..self@ }),
    {
        OptionChainQueryBuilder { risk_free_rate: Some(String::from_str(rate)), ..self }
    }

    /// Set the center price, as decimal text.
    pub fn price_center(self, price: &str) -> (r: Self)
        ensures
            r@ == (OptionChainQueryBuilderView { price_center: Some(price@), ..self@ }),
    {
        OptionChainQueryBuilder { price_center: Some(String::from_str(price)), ..self }
    }

    /// Set the interval of strikes.
    pub fn strike_interval(self, interval: i32) -> (r: Self)
        ensures
            r@ == (OptionChainQueryBuilderView { strike_interval: Some(interval), ..self@ }),
    {
        OptionChainQueryBuilder { strike_interval: Some(interval), ..self }
    }

    /// Set whether the chain carries greeks.
    pub fn enable_greeks(self, val: bool) -> (r: Self)
        ensures
            r@ == (OptionChainQueryBuilderView { enable_greeks: Some(val), ..self@ }),
    {
        OptionChainQueryBuilder { enable_greeks: Some(val), ..self }
    }

    /// Set the range of strikes.
    pub fn strike_range(self, range: OptionStrikeRange) -> (r: Self)
        ensures
            r@ == (OptionChainQueryBuilderView { strike_range: Some(range), ..self@ }),
    {
        OptionChainQueryBuilder { strike_range: Some(range), ..self }
    }

    /// Set the option type.
    pub fn option_type(self, opt_type: OptionType) -> (r: Self)
        ensures
            r@ == (OptionChainQueryBuilderView { option_type: Some(opt_type), ..self@ }),
    {
        OptionChainQueryBuilder { option_type: Some(opt_type), ..self }
    }

    /// Finish building the [`OptionChainQuery`].
    ///
    /// NOTE: The underlying symbol is required.
    pub fn build(self) -> (r: Result<OptionChainQuery, Error>)
        ensures
            match r {
                Ok(q) => self@.underlying is Some && q@ == option_chain_query_from(self@),
                Err(e) => self@.underlying is None && e is SymbolNotSet,
            },
            r matches Ok(q) ==> chain_query_keeps_builder_values(self@, q@),
    {
        let underlying = match self.underlying {
            Some(u) => u,
            None => return Err(Error::SymbolNotSet),
        };
        Ok(OptionChainQuery {
            underlying,
            expiration: self.expiration,
            expiration2: self.expiration2,
            strike_range: match self.strike_range { Some(r) => r, None => OptionStrikeRange::All },
            option_type: match self.option_type { Some(t) => t, None => OptionType::All },
            enable_greeks: match self.enable_greeks { Some(g) => g, None => true },
            strike_interval: match self.strike_interval { Some(i) => i, None => 1 },
            spread_type: match self.spread_type { Some(t) => t, None => OptionSpreadType::Single },
            strike_proximity: match self.strike_proximity { Some(p) => p, None => 5 },
            price_center: self.price_center,
            risk_free_rate: self.risk_free_rate,
        })
    }
}

} // verus!

verus! {

/// The parameters of the leg at `idx` of an option quote query.
pub open spec fn quote_leg_param(idx: nat, leg: OptionQouteLeg) -> Seq<char> {
    "legs["@ + decimal(idx) + "].Symbol="@ + leg.symbol@ + "&legs["@ + decimal(idx) + "].Ratio="@
        + signed_decimal(leg.ratio as int)
}

/// The parameters of the legs of an option quote query, in order.
pub open spec fn quote_leg_params(legs: Seq<OptionQouteLeg>) -> Seq<Seq<char>> {
    Seq::new(legs.len(), |i: int| quote_leg_param(i as nat, legs[i]))
}

/// The query to stream quotes on an options spread.
///
/// The risk free rate is kept as the decimal text that the query carries.
#[derive(Clone, Debug)]
pub struct OptionQuoteQuery {
    /// The individual positions making up a larger trade.
    pub legs: Vec<OptionQouteLeg>,
    /// The theoretical rate of return of an investment with zero risk, as decimal text.
    pub risk_free_rate: Option<String>,
    /// Whether greeks are returned.
    pub enable_greeks: bool,
}

/// The query string of an option quote query: the legs, then the risk free
/// rate when there is one, then whether greeks are returned.
pub open spec fn option_quote_query_text(q: OptionQuoteQuery) -> Seq<char> {
    "?"@ + join(quote_leg_params(q.legs@), "&"@) + match q.risk_free_rate {
        Some(rate) => "&riskFreeRate="@ + rate@,
        None => Seq::<char>::empty(),
    } + "&enableGreeks="@ + bool_text(q.enable_greeks)
}

/// The endpoint that streams the quotes of an option quote query.
pub open spec fn option_quote_endpoint(q: OptionQuoteQuery) -> Seq<char> {
    "marketdata/stream/options/quotes"@ + option_quote_query_text(q)
}

/// The text of the parameters of the leg at `idx`.
fn quote_leg_text(idx: usize, leg: &OptionQouteLeg) -> (r: String)
    ensures
        r@ == quote_leg_param(idx as nat, *leg),
{
    let mut out = String::from_str("legs[");
    push_decimal(&mut out, idx as u64);
    out.append("].Symbol=");
    out.append(leg.symbol.as_str());
    out.append("&legs[");
    push_decimal(&mut out, idx as u64);
    out.append("].Ratio=");
    push_signed_decimal(&mut out, leg.ratio as i64);
    out
}

impl OptionQuoteQuery {
    /// Convert the query into a query param string.
    pub fn as_query_string(&self) -> (r: String)
        ensures
            r@ == option_quote_query_text(*self),
    {
        let mut params: Vec<String> = Vec::new();
        let mut i: usize = 0;
        while i < self.legs.len()
            invariant
                i <= self.legs.len(),
                params@.len() == i,
                string_views(params@) =~= quote_leg_params(self.legs@).take(i as int),
            decreases self.legs.len() - i,
        {
            let ghost before = params@;
            let text = quote_leg_text(i, &self.legs[i]);
            params.push(text);
            proof {
                assert(params@ =~= before.push(text));
                assert(string_views(params@).len() == i + 1);
                assert forall|k: int| 0 <= k < i + 1 implies string_views(params@)[k]
                    == quote_leg_params(self.legs@).take(i as int + 1)[k] by {
                    if k < i {
                        assert(string_views(params@)[k] == string_views(before)[k]);
                    }
                }
                assert(string_views(params@) =~= quote_leg_params(self.legs@).take(i as int + 1));
            }
            i = i + 1;
        }
        assert(quote_leg_params(self.legs@).take(i as int) =~= quote_leg_params(self.legs@));
        let mut out = String::from_str("?");
        push_joined(&mut out, &params, "&");
        match &self.risk_free_rate {
            Some(rate) => {
                out.append("&riskFreeRate=");
                out.append(rate.as_str());
            },
            None => {},
        }
        out.append("&enableGreeks=");
        push_bool(&mut out, self.enable_greeks);
        out
    }

    /// The endpoint that streams the quotes of this query.
    pub fn endpoint(&self) -> (r: String)
        ensures
            r@ == option_quote_endpoint(*self),
    {
        let mut out = String::from_str("marketdata/stream/options/quotes");
        let qs = self.as_query_string();
        out.append(qs.as_str());
        out
    }
}

/// Builder for [`OptionQuoteQuery`].
#[derive(Clone, Debug, Default)]
pub struct OptionQuoteQueryBuilder {
    legs: Option<Vec<OptionQouteLeg>>,
    risk_free_rate: Option<String>,
    enable_greeks: Option<bool>,
}

impl OptionQuoteQueryBuilder {
    /// What has been set so far: the legs, the risk free rate and whether greeks are returned.
    pub closed spec fn legs_set(&self) -> Option<Seq<OptionQouteLeg>> {
        match self.legs {
            Some(v) => Some(v@),
            None => None,
        }
    }

    /// The risk free rate set so far, as decimal text.
    pub closed spec fn rate_set(&self) -> Option<Seq<char>> {
        opt_view(self.risk_free_rate)
    }

    /// Whether greeks were asked for, if set.
    pub closed spec fn greeks_set(&self) -> Option<bool> {
        self.enable_greeks
    }

    /// Create a new builder with nothing set.
    pub fn new() -> (r: Self)
        ensures
            r.legs_set() is None,
            r.rate_set() is None,
            r.greeks_set() is None,
    {
        OptionQuoteQueryBuilder { legs: None, risk_free_rate: None, enable_greeks: None }
    }

    /// Set the option legs (each option position in the overall trade); a
    /// single option is passed as one leg.
    pub fn legs(self, option_legs: Vec<OptionQouteLeg>) -> (r: Self)
        ensures
            r.legs_set() == Some(option_legs@),
            r.rate_set() == self.rate_set(),
            r.greeks_set() == self.greeks_set(),
    {
        OptionQuoteQueryBuilder { legs: Some(option_legs), ..self }
    }

    /// Set the risk free rate, as decimal text (`0.02` for 2%).
    pub fn risk_free_rate(self, rate: &str) -> (r: Self)
        ensures
            r.legs_set() == self.legs_set(),
            r.rate_set() == Some(rate@),
            r.greeks_set() == self.greeks_set(),
    {
        OptionQuoteQueryBuilder { risk_free_rate: Some(String::from_str(rate)), ..self }
    }

    /// Set whether the quotes carry greeks.
    pub fn enable_greeks(self, enable: bool) -> (r: Self)
        ensures
            r.legs_set() == self.legs_set(),
            r.rate_set() == self.rate_set(),
            r.greeks_set() == Some(enable),
    {
        OptionQuoteQueryBuilder { enable_greeks: Some(enable), ..self }
    }

    /// Finish building the [`OptionQuoteQuery`]: the legs are required,
    /// greeks are on unless turned off.
    pub fn build(self) -> (r: Result<OptionQuoteQuery, Error>)
        ensures
            match r {
                Ok(q) => self.legs_set() == Some(q.legs@) && opt_view(q.risk_free_rate) == self.rate_set()
                    && q.enable_greeks == match self.greeks_set() { Some(g) => g, None => true },
                Err(e) => self.legs_set() is None && e is OptionLegsNotSet,
            },
    {
        let legs = match self.legs {
            Some(l) => l,
            None => return Err(Error::OptionLegsNotSet),
        };
        Ok(OptionQuoteQuery {
            legs,
            enable_greeks: match self.enable_greeks { Some(g) => g, None => true },
            risk_free_rate: self.risk_free_rate,
        })
    }
}

} // verus!

verus! {

/// The strikes endpoint of a query starts with the underlying symbol and the
/// spread type; an expiration, when the query has one, is sent
/// (`&expiration=` and the date), whether or not a second expiration is set;
/// a second expiration is sent right after the first and only with it; with
/// no expiration the endpoint ends with the strike interval.
pub proof fn law_strikes_endpoint_sends_expirations(q: OptionSpreadStrikesQueryView)
    ensures
        has_prefix(
            spread_strikes_endpoint(q),
            "marketdata/options/strikes/"@ + q.underlying + "?spreadType="@ + spread_type_name(q.spread_type),
        ),
        q.expiration matches Some(d) ==> has_infix(spread_strikes_endpoint(q), "&expiration="@ + d),
        q.expiration matches Some(d) ==> (q.expiration2 is None ==> has_suffix(
            spread_strikes_endpoint(q),
            "&expiration="@ + d,
        )),
        q.expiration matches Some(d) ==> (q.expiration2 matches Some(d2) ==> has_suffix(
            spread_strikes_endpoint(q),
            "&expiration="@ + d + "&expiration2="@ + d2,
        )),
        q.expiration is None ==> has_suffix(
            spread_strikes_endpoint(q),
            "&strikeInterval="@ + signed_decimal(q.strike_interval as int),
        ),
{
    let head = "marketdata/options/strikes/"@ + q.underlying + "?spreadType="@ + spread_type_name(q.spread_type);
    let base = head + "&strikeInterval="@ + signed_decimal(q.strike_interval as int);
    let ep = spread_strikes_endpoint(q);
    let tail = ep.subrange(head.len() as int, ep.len() as int);
    assert(ep =~= head + tail);
    lemma_prefix_of_concat(head, tail);
    match q.expiration {
        Some(d) => {
            match q.expiration2 {
                Some(d2) => {
                    let t = "&expiration="@ + d + "&expiration2="@ + d2;
                    assert(ep =~= base + t);
                    lemma_suffix_of_concat(base, t);
                    lemma_infix_of_concat(base, "&expiration="@ + d, "&expiration2="@ + d2);
                    assert(base + ("&expiration="@ + d) + ("&expiration2="@ + d2) =~= ep);
                },
                None => {
                    assert(ep =~= base + ("&expiration="@ + d));
                    lemma_suffix_of_concat(base, "&expiration="@ + d);
                    lemma_infix_of_concat(base, "&expiration="@ + d, Seq::empty());
                    assert(base + ("&expiration="@ + d) + Seq::<char>::empty() =~= ep);
                },
            }
        },
        None => {
            let sd = "&strikeInterval="@ + signed_decimal(q.strike_interval as int);
            assert(ep =~= head + sd);
            lemma_suffix_of_concat(head, sd);
        },
    }
}

} // verus!

verus! {

/// A parameter `key=value` at a place after the first is sent after an
/// ampersand.
proof fn lemma_param_sent(params: Seq<Seq<char>>, i: int, key: Seq<char>, amp_key: Seq<char>, value: Seq<char>)
    requires
        0 < i < params.len(),
        params[i] == key + value,
        amp_key == "&"@ + key,
    ensures
        has_infix("?"@ + join(params, "&"@), amp_key + value),
{
    lemma_query_has_param(params, i);
    assert("&"@ + params[i] =~= amp_key + value);
}

/// How many values an optional value is: one when it is present.
pub open spec fn present_count(o: Option<Seq<char>>) -> int {
    if o is Some { 1 } else { 0 }
}

/// An option chain query sends every value of the query: the strike
/// interval first, then the proximity, the spread type, whether greeks are
/// wanted, the strike range and the option type, and each optional value
/// (first and second expiration, risk free rate, price center) that is set.
pub proof fn law_chain_query_sends_every_value(q: OptionChainQueryView)
    ensures
        has_prefix(option_chain_query_text(q), "?strikeInterval="@ + signed_decimal(q.strike_interval as int)),
        has_infix(option_chain_query_text(q), "&strikeProximity="@ + signed_decimal(q.strike_proximity as int)),
        has_infix(option_chain_query_text(q), "&spreadType="@ + spread_type_name(q.spread_type)),
        has_infix(option_chain_query_text(q), "&enableGreeks="@ + bool_text(q.enable_greeks)),
        has_infix(option_chain_query_text(q), "&strikeRange="@ + strike_range_name(q.strike_range)),
        has_infix(option_chain_query_text(q), "&optionType="@ + option_type_name(q.option_type)),
        q.expiration matches Some(d) ==> has_infix(option_chain_query_text(q), "&expiration="@ + d),
        q.expiration2 matches Some(d) ==> has_infix(option_chain_query_text(q), "&expiration2="@ + d),
        q.risk_free_rate matches Some(r) ==> has_infix(option_chain_query_text(q), "&riskFreeRate="@ + r),
        q.price_center matches Some(p) ==> has_infix(option_chain_query_text(q), "&priceCenter="@ + p),
{
    reveal_strlit("?");
    reveal_strlit("&");
    reveal_strlit("strikeInterval=");
    reveal_strlit("?strikeInterval=");
    reveal_strlit("strikeProximity=");
    reveal_strlit("&strikeProximity=");
    reveal_strlit("spreadType=");
    reveal_strlit("&spreadType=");
    reveal_strlit("enableGreeks=");
    reveal_strlit("&enableGreeks=");
    reveal_strlit("strikeRange=");
    reveal_strlit("&strikeRange=");
    reveal_strlit("optionType=");
    reveal_strlit("&optionType=");
    reveal_strlit("expiration=");
    reveal_strlit("&expiration=");
    reveal_strlit("expiration2=");
    reveal_strlit("&expiration2=");
    reveal_strlit("riskFreeRate=");
    reveal_strlit("&riskFreeRate=");
    reveal_strlit("priceCenter=");
    reveal_strlit("&priceCenter=");
    let params = option_chain_params(q);
    let text = option_chain_query_text(q);
    assert(text == "?"@ + join(params, "&"@));
    lemma_query_has_param(params, 0);
    assert("?strikeInterval="@ =~= "?"@ + "strikeInterval="@);
    assert("?"@ + params[0] =~= "?strikeInterval="@ + signed_decimal(q.strike_interval as int));
    assert("&strikeProximity="@ =~= "&"@ + "strikeProximity="@);
    lemma_param_sent(params, 1, "strikeProximity="@, "&strikeProximity="@, signed_decimal(q.strike_proximity as int));
    assert("&spreadType="@ =~= "&"@ + "spreadType="@);
    lemma_param_sent(params, 2, "spreadType="@, "&spreadType="@, spread_type_name(q.spread_type));
    assert("&enableGreeks="@ =~= "&"@ + "enableGreeks="@);
    lemma_param_sent(params, 3, "enableGreeks="@, "&enableGreeks="@, bool_text(q.enable_greeks));
    assert("&strikeRange="@ =~= "&"@ + "strikeRange="@);
    lemma_param_sent(params, 4, "strikeRange="@, "&strikeRange="@, strike_range_name(q.strike_range));
    assert("&optionType="@ =~= "&"@ + "optionType="@);
    lemma_param_sent(params, 5, "optionType="@, "&optionType="@, option_type_name(q.option_type));
    let e1 = present_count(q.expiration);
    let e2 = present_count(q.expiration2);
    let e3 = present_count(q.risk_free_rate);
    if let Some(d) = q.expiration {
        assert("&expiration="@ =~= "&"@ + "expiration="@);
    lemma_param_sent(params, 6, "expiration="@, "&expiration="@, d);
    }
    if let Some(d) = q.expiration2 {
        assert("&expiration2="@ =~= "&"@ + "expiration2="@);
    lemma_param_sent(params, 6 + e1, "expiration2="@, "&expiration2="@, d);
    }
    if let Some(r) = q.risk_free_rate {
        assert("&riskFreeRate="@ =~= "&"@ + "riskFreeRate="@);
    lemma_param_sent(params, 6 + e1 + e2, "riskFreeRate="@, "&riskFreeRate="@, r);
    }
    if let Some(p) = q.price_center {
        assert("&priceCenter="@ =~= "&"@ + "priceCenter="@);
    lemma_param_sent(params, 6 + e1 + e2 + e3, "priceCenter="@, "&priceCenter="@, p);
    }
}

} // verus!

verus! {

/// Whether a strikes query carries what was set on its builder: every set
/// value as it was set; an unset spread type is a single option, an unset
/// strike interval 1; unset expirations stay unset.
pub open spec fn strikes_query_keeps_builder_values(
    b: OptionSpreadStrikesQueryBuilderView,
    q: OptionSpreadStrikesQueryView,
) -> bool {
    &&& b.underlying == Some(q.underlying)
    &&& (b.spread_type matches Some(t) ==> q.spread_type == t)
    &&& (b.spread_type is None ==> q.spread_type == OptionSpreadType::Single)
    &&& (b.strike_interval matches Some(i) ==> q.strike_interval == i)
    &&& (b.strike_interval is None ==> q.strike_interval == 1)
    &&& q.expiration == b.expiration
    &&& q.expiration2 == b.expiration2
}

/// Whether a chain query carries what was set on its builder: every set
/// value as it was set; unset ones take their defaults (proximity 5, single
/// option spreads, strike interval 1, greeks on, all strikes, all option
/// types); unset expirations, rate and price center stay unset.
pub open spec fn chain_query_keeps_builder_values(b: OptionChainQueryBuilderView, q: OptionChainQueryView) -> bool {
    &&& b.underlying == Some(q.underlying)
    &&& q.expiration == b.expiration
    &&& q.expiration2 == b.expiration2
    &&& (b.strike_proximity matches Some(p) ==> q.strike_proximity == p)
    &&& (b.strike_proximity is None ==> q.strike_proximity == 5)
    &&& (b.spread_type matches Some(t) ==> q.spread_type == t)
    &&& (b.spread_type is None ==> q.spread_type == OptionSpreadType::Single)
    &&& q.risk_free_rate == b.risk_free_rate
    &&& q.price_center == b.price_center
    &&& (b.strike_interval matches Some(i) ==> q.strike_interval == i)
    &&& (b.strike_interval is None ==> q.strike_interval == 1)
    &&& (b.enable_greeks matches Some(g) ==> q.enable_greeks == g)
    &&& (b.enable_greeks is None ==> q.enable_greeks == true)
    &&& (b.strike_range matches Some(r) ==> q.strike_range == r)
    &&& (b.strike_range is None ==> q.strike_range == OptionStrikeRange::All)
    &&& (b.option_type matches Some(t) ==> q.option_type == t)
    &&& (b.option_type is None ==> q.option_type == OptionType::All)
}

/// An options query built from a builder with an underlying symbol carries
/// every value set on the builder, and only unset values take defaults.
pub proof fn law_option_query_builds_keep_set_values(
    sb: OptionSpreadStrikesQueryBuilderView,
    cb: OptionChainQueryBuilderView,
    d: Seq<char>,
)
    ensures
        sb.underlying is Some ==> strikes_query_keeps_builder_values(sb, spread_strikes_query_from(sb)),
        cb.underlying is Some ==> chain_query_keeps_builder_values(cb, option_chain_query_from(cb)),
        sb.underlying is Some ==> spread_strikes_query_from(
            OptionSpreadStrikesQueryBuilderView { expiration: Some(d), ..sb },
        ).expiration == Some(d),
        cb.underlying is Some ==> option_chain_query_from(
            OptionChainQueryBuilderView { expiration2: Some(d), ..cb },
        ).expiration2 == Some(d),
{
}

/// An option quote query sends every leg (its symbol and ratio, under its
/// index), the risk free rate when it is set, and ends with whether greeks
/// are wanted.
pub proof fn law_quote_query_sends_every_value(q: OptionQuoteQuery, i: int)
    ensures
        has_prefix(option_quote_query_text(q), "?"@),
        0 <= i < q.legs@.len() ==> has_infix(
            option_quote_query_text(q),
            "legs["@ + decimal(i as nat) + "].Symbol="@ + q.legs@[i].symbol@ + "&legs["@ + decimal(i as nat)
                + "].Ratio="@ + signed_decimal(q.legs@[i].ratio as int),
        ),
        q.risk_free_rate matches Some(r) ==> has_infix(option_quote_query_text(q), "&riskFreeRate="@ + r@),
        has_suffix(option_quote_query_text(q), "&enableGreeks="@ + bool_text(q.enable_greeks)),
{
    let legs = quote_leg_params(q.legs@);
    let j = join(legs, "&"@);
    let rate = match q.risk_free_rate {
        Some(r) => "&riskFreeRate="@ + r@,
        None => Seq::<char>::empty(),
    };
    let g = "&enableGreeks="@ + bool_text(q.enable_greeks);
    let text = option_quote_query_text(q);
    assert(text =~= "?"@ + (j + rate + g));
    lemma_prefix_of_concat("?"@, j + rate + g);
    assert(text =~= ("?"@ + j + rate) + g);
    lemma_suffix_of_concat("?"@ + j + rate, g);
    if 0 <= i < q.legs@.len() {
        assert(legs[i] == quote_leg_param(i as nat, q.legs@[i]));
        lemma_join_has_part(legs, "&"@, i);
        lemma_infix_prepend("?"@, j, legs[i]);
        lemma_infix_extend("?"@ + j, rate + g, legs[i]);
        assert(("?"@ + j) + (rate + g) =~= text);
    }
    if let Some(r) = q.risk_free_rate {
        lemma_infix_of_concat("?"@ + j, "&riskFreeRate="@ + r@, g);
    }
}

} // verus!
