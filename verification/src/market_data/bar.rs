//! Bars of market data, and the queries that fetch and stream them.
use vstd::prelude::*;
use crate::error::Error;
use crate::text::{
    ascii_lowercase, concat_text, decimal, decimal_param, has_infix, has_prefix, is_ascii_text, join,
    lemma_query_has_param, lowercase,
    opt_view, optional_param,
    push_joined, push_optional_param, signed_decimal, signed_decimal_param, str_is, string_views,
    to_lowercase,
};

verus! {

/// A bar of market data: open, high, low and close over one interval.
#[derive(Clone, Debug)]
pub struct Bar {
    /// The closing price of the bar.
    pub close: String,
    /// Number of down ticks in the bar.
    pub down_ticks: u64,
    /// Volume traded on down ticks.
    pub down_volume: u64,
    /// The epoch time of the bar, in milliseconds.
    pub epoch: i64,
    /// The highest price of the bar.
    pub high: String,
    /// Whether this bar is the last one of the history.
    pub is_end_of_history: bool,
    /// Whether the bar is built from real time data.
    pub is_real_time: Option<bool>,
    /// The lowest price of the bar.
    pub low: String,
    /// The opening price of the bar.
    pub open: String,
    /// The open interest (futures and options).
    pub open_interest: Option<String>,
    /// The timestamp of the bar.
    pub time_stamp: String,
    /// Total number of ticks in the bar.
    pub total_ticks: u64,
    /// Total volume of the bar.
    pub total_volume: String,
    /// Number of unchanged ticks.
    pub unchanged_ticks: u8,
    /// Volume of unchanged ticks.
    pub unchanged_volume: u8,
    /// Number of up ticks.
    pub up_ticks: u64,
    /// Volume traded on up ticks.
    pub up_volume: u64,
    /// Whether the bar is still open or already closed.
    pub bar_status: BarStatus,
}

/// The 2 types of state a `Bar` can be in, open or closed.
#[derive(Clone, Copy, Debug, PartialEq, Eq)]
pub enum BarStatus {
    /// Indicates the `Bar` is still trading.
    Open,
    /// Indicates the `Bar` is finished trading.
    Closed,
}

/// The types of unit of measurement for time in each bar interval.
#[derive(Clone, Copy, Debug, PartialEq, Eq)]
pub enum BarUnit {
    /// Minute Bars
    Minute,
    /// Daily Bars
    Daily,
    /// Weekly Bars
    Weekly,
    /// Monthly Bars
    Monthly,
}

/// The different types of Market Session Templates.
#[derive(Clone, Copy, Debug, PartialEq, Eq)]
pub enum SessionTemplate {
    /// U.S Equities Pre Market Session Template
    USEQPre,
    /// U.S Equities Post Market Session Template
    USEQPost,
    /// U.S Equities Pre And Post Market Session Template
    USEQPreAndPost,
    /// U.S Equities 24 Hour Session Template
    USEQ24Hour,
    /// U.S Equities Normal Market Session Template
    Default,
}

/// The name of a bar unit, as it is written in a query.
pub open spec fn bar_unit_name(u: BarUnit) -> Seq<char> {
    match u {
        BarUnit::Minute => "Minute"@,
        BarUnit::Daily => "Daily"@,
        BarUnit::Weekly => "Weekly"@,
        BarUnit::Monthly => "Monthly"@,
    }
}

/// The bar unit that a lowercase name stands for.
pub open spec fn bar_unit_from_lowercase(s: Seq<char>) -> Option<BarUnit> {
    if s == "minute"@ {
        Some(BarUnit::Minute)
    } else if s == "daily"@ {
        Some(BarUnit::Daily)
    } else if s == "weekly"@ {
        Some(BarUnit::Weekly)
    } else if s == "monthly"@ {
        Some(BarUnit::Monthly)
    } else {
        None
    }
}

/// The name of a session template, as it is written in a query.
pub open spec fn session_template_name(t: SessionTemplate) -> Seq<char> {
    match t {
        SessionTemplate::USEQPre => "USEQPre"@,
        SessionTemplate::USEQPost => "USEQPost"@,
        SessionTemplate::USEQPreAndPost => "USEQPreAndPost"@,
        SessionTemplate::USEQ24Hour => "USEQ24Hour"@,
        SessionTemplate::Default => "Default"@,
    }
}

/// The session template that a lowercase name stands for.
pub open spec fn session_template_from_lowercase(s: Seq<char>) -> Option<SessionTemplate> {
    if s == "useqpre"@ {
        Some(SessionTemplate::USEQPre)
    } else if s == "useqpost"@ {
        Some(SessionTemplate::USEQPost)
    } else if s == "useqpreandpost"@ {
        Some(SessionTemplate::USEQPreAndPost)
    } else if s == "useq24hour"@ {
        Some(SessionTemplate::USEQ24Hour)
    } else if s == "default"@ {
        Some(SessionTemplate::Default)
    } else {
        None
    }
}

impl BarUnit {
    /// The name of the unit, as it is written in a query.
    pub fn name(&self) -> (r: &'static str)
        ensures
            r@ == bar_unit_name(*self),
    {
        match self {
            BarUnit::Minute => "Minute",
            BarUnit::Daily => "Daily",
            BarUnit::Weekly => "Weekly",
            BarUnit::Monthly => "Monthly",
        }
    }

    /// The unit named by an already lowercased name; the error text for
    /// any other name.
    pub fn from_lowercase_name(s: &str) -> (r: Result<BarUnit, String>)
        ensures
            match bar_unit_from_lowercase(s@) {
                Some(u) => r == Ok::<BarUnit, String>(u),
                None => r matches Err(m) && m@ == "Invalid value for BarUnit: {s}"@,
            },
    {
        if str_is(s, "minute") {
            Ok(BarUnit::Minute)
        } else if str_is(s, "daily") {
            Ok(BarUnit::Daily)
        } else if str_is(s, "weekly") {
            Ok(BarUnit::Weekly)
        } else if str_is(s, "monthly") {
            Ok(BarUnit::Monthly)
        } else {
            Err(String::from_str("Invalid value for BarUnit: {s}"))
        }
    }

    /// Parses a bar unit name, ignoring case.
    pub fn parse_name(s: &str) -> (r: Result<BarUnit, String>)
        ensures
            match bar_unit_from_lowercase(lowercase(s@)) {
                Some(u) => r == Ok::<BarUnit, String>(u),
                None => r matches Err(m) && m@ == "Invalid value for BarUnit: {s}"@,
            },
            is_ascii_text(s@) ==> match bar_unit_from_lowercase(ascii_lowercase(s@)) {
                Some(u) => r == Ok::<BarUnit, String>(u),
                None => r is Err,
            },
    {
        let lower = to_lowercase(s);
        BarUnit::from_lowercase_name(lower.as_str())
    }
}

impl core::str::FromStr for BarUnit {
    type Err = String;

    fn from_str(s: &str) -> (r: Result<Self, Self::Err>)
        ensures
            match bar_unit_from_lowercase(lowercase(s@)) {
                Some(u) => r == Ok::<BarUnit, String>(u),
                None => r matches Err(m) && m@ == "Invalid value for BarUnit: {s}"@,
            },
            is_ascii_text(s@) ==> match bar_unit_from_lowercase(ascii_lowercase(s@)) {
                Some(u) => r == Ok::<BarUnit, String>(u),
                None => r is Err,
            },
    {
        BarUnit::parse_name(s)
    }
}

impl SessionTemplate {
    /// The name of the session template, as it is written in a query.
    pub fn name(&self) -> (r: &'static str)
        ensures
            r@ == session_template_name(*self),
    {
        match self {
            SessionTemplate::USEQPre => "USEQPre",
            SessionTemplate::USEQPost => "USEQPost",
            SessionTemplate::USEQPreAndPost => "USEQPreAndPost",
            SessionTemplate::USEQ24Hour => "USEQ24Hour",
            SessionTemplate::Default => "Default",
        }
    }

    /// The session template named by an already lowercased name; the error
    /// text for any other name.
    pub fn from_lowercase_name(s: &str) -> (r: Result<SessionTemplate, String>)
        ensures
            match session_template_from_lowercase(s@) {
                Some(t) => r == Ok::<SessionTemplate, String>(t),
                None => r matches Err(m) && m@ == "Invalid value for SessionTemplate: {s}"@,
            },
    {
        if str_is(s, "useqpre") {
            Ok(SessionTemplate::USEQPre)
        } else if str_is(s, "useqpost") {
            Ok(SessionTemplate::USEQPost)
        } else if str_is(s, "useqpreandpost") {
            Ok(SessionTemplate::USEQPreAndPost)
        } else if str_is(s, "useq24hour") {
            Ok(SessionTemplate::USEQ24Hour)
        } else if str_is(s, "default") {
            Ok(SessionTemplate::Default)
        } else {
            Err(String::from_str("Invalid value for SessionTemplate: {s}"))
        }
    }

    /// Parses a session template name, ignoring case.
    pub fn parse_name(s: &str) -> (r: Result<SessionTemplate, String>)
        ensures
            match session_template_from_lowercase(lowercase(s@)) {
                Some(t) => r == Ok::<SessionTemplate, String>(t),
                None => r matches Err(m) && m@ == "Invalid value for SessionTemplate: {s}"@,
            },
            is_ascii_text(s@) ==> match session_template_from_lowercase(ascii_lowercase(s@)) {
                Some(t) => r == Ok::<SessionTemplate, String>(t),
                None => r is Err,
            },
    {
        let lower = to_lowercase(s);
        SessionTemplate::from_lowercase_name(lower.as_str())
    }
}

impl core::str::FromStr for SessionTemplate {
    type Err = String;

    fn from_str(s: &str) -> (r: Result<Self, Self::Err>)
        ensures
            match session_template_from_lowercase(lowercase(s@)) {
                Some(t) => r == Ok::<SessionTemplate, String>(t),
                None => r matches Err(m) && m@ == "Invalid value for SessionTemplate: {s}"@,
            },
            is_ascii_text(s@) ==> match session_template_from_lowercase(ascii_lowercase(s@)) {
                Some(t) => r == Ok::<SessionTemplate, String>(t),
                None => r is Err,
            },
    {
        SessionTemplate::parse_name(s)
    }
}

/// Every bar unit's name parses back to that unit: the names are ASCII, and
/// their lowercase is what `parse_name` recognises.
pub proof fn law_bar_unit_name_parses(u: BarUnit)
    ensures
        is_ascii_text(bar_unit_name(u)),
        bar_unit_from_lowercase(ascii_lowercase(bar_unit_name(u))) == Some(u),
{
    reveal_strlit("Minute");
    reveal_strlit("Daily");
    reveal_strlit("Weekly");
    reveal_strlit("Monthly");
    reveal_strlit("minute");
    reveal_strlit("daily");
    reveal_strlit("weekly");
    reveal_strlit("monthly");
    assert(ascii_lowercase(bar_unit_name(u)) =~= match u {
        BarUnit::Minute => "minute"@,
        BarUnit::Daily => "daily"@,
        BarUnit::Weekly => "weekly"@,
        BarUnit::Monthly => "monthly"@,
    });
    assert("daily"@.len() != "minute"@.len());
    assert("weekly"@[0] != "minute"@[0] && "weekly"@.len() != "daily"@.len());
    assert("monthly"@.len() != "minute"@.len() && "monthly"@.len() != "daily"@.len()
        && "monthly"@.len() != "weekly"@.len());
}

/// Every session template's name parses back to that template.
pub proof fn law_session_template_name_parses(t: SessionTemplate)
    ensures
        is_ascii_text(session_template_name(t)),
        session_template_from_lowercase(ascii_lowercase(session_template_name(t))) == Some(t),
{
    reveal_strlit("USEQPre");
    reveal_strlit("USEQPost");
    reveal_strlit("USEQPreAndPost");
    reveal_strlit("USEQ24Hour");
    reveal_strlit("Default");
    reveal_strlit("useqpre");
    reveal_strlit("useqpost");
    reveal_strlit("useqpreandpost");
    reveal_strlit("useq24hour");
    reveal_strlit("default");
    assert(ascii_lowercase(session_template_name(t)) =~= match t {
        SessionTemplate::USEQPre => "useqpre"@,
        SessionTemplate::USEQPost => "useqpost"@,
        SessionTemplate::USEQPreAndPost => "useqpreandpost"@,
        SessionTemplate::USEQ24Hour => "useq24hour"@,
        SessionTemplate::Default => "default"@,
    });
    assert("useqpost"@.len() != "useqpre"@.len());
    assert("useqpreandpost"@.len() != "useqpre"@.len() && "useqpreandpost"@.len() != "useqpost"@.len());
    assert("useq24hour"@.len() != "useqpre"@.len() && "useq24hour"@.len() != "useqpost"@.len()
        && "useq24hour"@.len() != "useqpreandpost"@.len());
    assert("default"@[0] != "useqpre"@[0] && "default"@.len() != "useqpost"@.len()
        && "default"@.len() != "useqpreandpost"@.len() && "default"@.len() != "useq24hour"@.len());
}

/// A query to fetch [`Bar`]'s of market data.
#[derive(Clone, Debug)]
pub struct GetBarsQuery {
    /// The symbol of the security you want bars for.
    pub symbol: String,
    /// The interval (of time units) that each bar will consist of.
    pub interval: i16,
    /// The unit of measurement for time in each bar interval.
    pub unit: BarUnit,
    /// Number of bars back to fetch.
    pub bars_back: Option<u32>,
    /// The first date formatted as `"YYYY-MM-DD"`, or `"2020-04-20T18:00:00Z"`.
    pub first_date: Option<String>,
    /// The last date formatted as `"YYYY-MM-DD"`, or `"2020-04-20T18:00:00Z"`.
    pub last_date: Option<String>,
    /// The United States (US) stock market session template.
    pub session_template: SessionTemplate,
    /// DEPRECATED: Use `last_date` instead of `start_date`.
    pub start_date: Option<String>,
}

/// The plain values of a [`GetBarsQuery`].
pub struct GetBarsQueryView {
    pub symbol: Seq<char>,
    pub interval: i16,
    pub unit: BarUnit,
    pub bars_back: Option<u32>,
    pub first_date: Option<Seq<char>>,
    pub last_date: Option<Seq<char>>,
    pub session_template: SessionTemplate,
    pub start_date: Option<Seq<char>>,
}

impl View for GetBarsQuery {
    type V = GetBarsQueryView;

    open spec fn view(&self) -> GetBarsQueryView {
        GetBarsQueryView {
            symbol: self.symbol@,
            interval: self.interval,
            unit: self.unit,
            bars_back: self.bars_back,
            first_date: opt_view(self.first_date),
            last_date: opt_view(self.last_date),
            session_template: self.session_template,
            start_date: opt_view(self.start_date),
        }
    }
}


/// The decimal notation of an optional count.
pub open spec fn opt_decimal(n: Option<u32>) -> Option<Seq<char>> {
    match n {
        Some(v) => Some(decimal(v as nat)),
        None => None,
    }
}

/// The parameters of a bars query, in the order they are written.
pub open spec fn get_bars_params(q: GetBarsQueryView) -> Seq<Seq<char>> {
    seq!["interval="@ + signed_decimal(q.interval as int), "unit="@ + bar_unit_name(q.unit)]
        + optional_param("barsBack="@, opt_decimal(q.bars_back))
        + optional_param("firstDate="@, q.first_date)
        + optional_param("lastDate="@, q.last_date)
        + seq!["sessionTemplate="@ + session_template_name(q.session_template)]
        + optional_param("startDate="@, q.start_date)
}

/// The query string of a bars query: `?` and its parameters joined by `&`.
pub open spec fn get_bars_query_text(q: GetBarsQueryView) -> Seq<char> {
    "?"@ + join(get_bars_params(q), "&"@)
}

/// The endpoint that fetches the bars of a query.
pub open spec fn get_bars_endpoint(q: GetBarsQueryView) -> Seq<char> {
    "marketdata/barcharts/"@ + q.symbol + get_bars_query_text(q)
}

impl GetBarsQuery {
    /// Convert the `GetBarsQuery` into a query param string.
    pub fn as_query_string(&self) -> (r: String)
        ensures
            r@ == get_bars_query_text(self@),
    {
        let mut params: Vec<String> = Vec::new();
        params.push(signed_decimal_param("interval=", self.interval as i64));
        params.push(concat_text("unit=", self.unit.name()));
        proof {
            assert(string_views(params@) =~= seq![
                "interval="@ + signed_decimal(self.interval as int),
                "unit="@ + bar_unit_name(self.unit),
            ]);
        }
        let ghost p0 = string_views(params@);
        match self.bars_back {
            Some(n) => {
                params.push(decimal_param("barsBack=", n as u64));
                assert(string_views(params@) =~= p0 + optional_param("barsBack="@, opt_decimal(self.bars_back)));
            },
            None => {
                assert(string_views(params@) =~= p0 + optional_param("barsBack="@, opt_decimal(self.bars_back)));
            },
        }
        push_optional_param(&mut params, "firstDate=", &self.first_date);
        push_optional_param(&mut params, "lastDate=", &self.last_date);
        let ghost p1 = string_views(params@);
        params.push(concat_text("sessionTemplate=", self.session_template.name()));
        assert(string_views(params@) =~= p1 + seq!["sessionTemplate="@ + session_template_name(self.session_template)]);
        push_optional_param(&mut params, "startDate=", &self.start_date);
        assert(string_views(params@) =~= get_bars_params(self@));
        let mut out = String::from_str("?");
        push_joined(&mut out, &params, "&");
        out
    }

    /// The endpoint that fetches the bars of this query.
    pub fn endpoint(&self) -> (r: String)
        ensures
            r@ == get_bars_endpoint(self@),
    {
        let mut out = concat_text("marketdata/barcharts/", self.symbol.as_str());
        let qs = self.as_query_string();
        out.append(qs.as_str());
        out
    }
}

} // verus!

verus! {

/// A query to stream [`Bar`]'s of market data.
#[derive(Clone, Debug)]
pub struct StreamBarsQuery {
    /// The symbol of the security you want bars for.
    pub symbol: String,
    /// The interval (of time units) that each bar will consist of.
    pub interval: i16,
    /// The unit of measurement for time in each bar interval.
    pub unit: BarUnit,
    /// Number of bars back to fetch.
    pub bars_back: u32,
    /// The United States (US) stock market session template.
    pub session_template: SessionTemplate,
}

/// The plain values of a [`StreamBarsQuery`].
pub struct StreamBarsQueryView {
    pub symbol: Seq<char>,
    pub interval: i16,
    pub unit: BarUnit,
    pub bars_back: u32,
    pub session_template: SessionTemplate,
}

impl View for StreamBarsQuery {
    type V = StreamBarsQueryView;

    open spec fn view(&self) -> StreamBarsQueryView {
        StreamBarsQueryView {
            symbol: self.symbol@,
            interval: self.interval,
            unit: self.unit,
            bars_back: self.bars_back,
            session_template: self.session_template,
        }
    }
}

/// The parameters of a bar stream query, in the order they are written.
pub open spec fn stream_bars_params(q: StreamBarsQueryView) -> Seq<Seq<char>> {
    seq![
        "interval="@ + signed_decimal(q.interval as int),
        "unit="@ + bar_unit_name(q.unit),
        "barsBack="@ + decimal(q.bars_back as nat),
        "sessionTemplate="@ + session_template_name(q.session_template),
    ]
}

/// The query string of a bar stream query.
pub open spec fn stream_bars_query_text(q: StreamBarsQueryView) -> Seq<char> {
    "?"@ + join(stream_bars_params(q), "&"@)
}

/// The endpoint that streams the bars of a query.
pub open spec fn stream_bars_endpoint(q: StreamBarsQueryView) -> Seq<char> {
    "marketdata/stream/barcharts/"@ + q.symbol + stream_bars_query_text(q)
}

impl StreamBarsQuery {
    /// Convert the `StreamBarsQuery` into a query param string.
    pub fn as_query_string(&self) -> (r: String)
        ensures
            r@ == stream_bars_query_text(self@),
    {
        let mut params: Vec<String> = Vec::new();
        params.push(signed_decimal_param("interval=", self.interval as i64));
        params.push(concat_text("unit=", self.unit.name()));
        params.push(decimal_param("barsBack=", self.bars_back as u64));
        params.push(concat_text("sessionTemplate=", self.session_template.name()));
        assert(string_views(params@) =~= stream_bars_params(self@));
        let mut out = String::from_str("?");
        push_joined(&mut out, &params, "&");
        out
    }

    /// The endpoint that streams the bars of this query.
    pub fn endpoint(&self) -> (r: String)
        ensures
            r@ == stream_bars_endpoint(self@),
    {
        let mut out = concat_text("marketdata/stream/barcharts/", self.symbol.as_str());
        let qs = self.as_query_string();
        out.append(qs.as_str());
        out
    }
}

/// The number of bars back that `max_bars_back` asks for: the largest
/// intraday history the API serves.
pub const MAX_BARS_BACK: u32 = 57600u32;

/// Builder pattern struct for [`GetBarsQuery`].
#[derive(Debug, Default)]
pub struct GetBarsQueryBuilder {
    symbol: Option<String>,
    interval: Option<i16>,
    unit: Option<BarUnit>,
    bars_back: Option<u32>,
    first_date: Option<String>,
    last_date: Option<String>,
    session_template: Option<SessionTemplate>,
    start_date: Option<String>,
}

/// The plain values of a [`GetBarsQueryBuilder`]: what has been set so far.
pub struct GetBarsQueryBuilderView {
    pub symbol: Option<Seq<char>>,
    pub interval: Option<i16>,
    pub unit: Option<BarUnit>,
    pub bars_back: Option<u32>,
    pub first_date: Option<Seq<char>>,
    pub last_date: Option<Seq<char>>,
    pub session_template: Option<SessionTemplate>,
    pub start_date: Option<Seq<char>>,
}

impl View for GetBarsQueryBuilder {
    type V = GetBarsQueryBuilderView;

    closed spec fn view(&self) -> GetBarsQueryBuilderView {
        GetBarsQueryBuilderView {
            symbol: opt_view(self.symbol),
            interval: self.interval,
            unit: self.unit,
            bars_back: self.bars_back,
            first_date: opt_view(self.first_date),
            last_date: opt_view(self.last_date),
            session_template: self.session_template,
            start_date: opt_view(self.start_date),
        }
    }
}

/// The bars query that a builder with a symbol produces: unset values take
/// their defaults (interval 1, daily bars, the default session template).
pub open spec fn get_bars_query_from(b: GetBarsQueryBuilderView) -> GetBarsQueryView {
    GetBarsQueryView {
        symbol: b.symbol->0,
        interval: match b.interval { Some(i) => i, None => 1i16 },
        unit: match b.unit { Some(u) => u, None => BarUnit::Daily },
        bars_back: b.bars_back,
        first_date: b.first_date,
        last_date: b.last_date,
        session_template: match b.session_template { Some(t) => t, None => SessionTemplate::Default },
        start_date: b.start_date,
    }
}

impl GetBarsQueryBuilder {
    /// Create a new builder with nothing set.
    pub fn new() -> (r: Self)
        ensures
            r@ == (GetBarsQueryBuilderView {
                symbol: None,
                interval: None,
                unit: None,
                bars_back: None,
                first_date: None,
                last_date: None,
                session_template: None,
                start_date: None,
            }),
    {
        GetBarsQueryBuilder {
            symbol: None,
            interval: None,
            unit: None,
            bars_back: None,
            first_date: None,
            last_date: None,
            session_template: None,
            start_date: None,
        }
    }

    /// Set the symbol.
    pub fn symbol(self, symbol: &str) -> (r: Self)
        ensures
            r@ == (GetBarsQueryBuilderView { symbol: Some(symbol@), ..self@ }),
    {
        GetBarsQueryBuilder { symbol: Some(String::from_str(symbol)), ..self }
    }

    /// Set the interval.
    pub fn interval(self, interval: i16) -> (r: Self)
        ensures
            r@ == (GetBarsQueryBuilderView { interval: Some(interval), ..self@ }),
    {
        GetBarsQueryBuilder { interval: Some(interval), ..self }
    }

    /// Set the unit of time of each bar interval.
    pub fn unit(self, unit: BarUnit) -> (r: Self)
        ensures
            r@ == (GetBarsQueryBuilderView { unit: Some(unit), ..self@ }),
    {
        GetBarsQueryBuilder { unit: Some(unit), ..self }
    }

    /// Set the number of bars back to fetch.
    pub fn bars_back(self, bars_back: u32) -> (r: Self)
        ensures
            r@ == (GetBarsQueryBuilderView { bars_back: Some(bars_back), ..self@ }),
    {
        GetBarsQueryBuilder { bars_back: Some(bars_back), ..self }
    }

    /// Ask for the largest number of bars back (57,600).
    pub fn max_bars_back(self) -> (r: Self)
        ensures
            r@ == (GetBarsQueryBuilderView { bars_back: Some(MAX_BARS_BACK), ..self@ }),
    {
        GetBarsQueryBuilder { bars_back: Some(MAX_BARS_BACK), ..self }
    }

    /// Set the first date.
    pub fn first_date(self, first_date: &str) -> (r: Self)
        ensures
            r@ == (GetBarsQueryBuilderView { first_date: Some(first_date@), ..self@ }),
    {
        GetBarsQueryBuilder { first_date: Some(String::from_str(first_date)), ..self }
    }

    /// Set the last date.
    pub fn last_date(self, last_date: &str) -> (r: Self)
        ensures
            r@ == (GetBarsQueryBuilderView { last_date: Some(last_date@), ..self@ }),
    {
        GetBarsQueryBuilder { last_date: Some(String::from_str(last_date)), ..self }
    }

    /// Set the session template.
    pub fn session_template(self, session_template: SessionTemplate) -> (r: Self)
        ensures
            r@ == (GetBarsQueryBuilderView { session_template: Some(session_template), ..self@ }),
    {
        GetBarsQueryBuilder { session_template: Some(session_template), ..self }
    }

    /// Set the (deprecated) start date.
    pub fn start_date(self, start_date: &str) -> (r: Self)
        ensures
            r@ == (GetBarsQueryBuilderView { start_date: Some(start_date@), ..self@ }),
    {
        GetBarsQueryBuilder { start_date: Some(String::from_str(start_date)), ..self }
    }

    /// Finish building the [`GetBarsQuery`].
    ///
    /// NOTE: Setting the symbol is required before building.
    pub fn build(self) -> (r: Result<GetBarsQuery, Error>)
        ensures
            match r {
                Ok(q) => self@.symbol is Some && q@ == get_bars_query_from(self@),
                Err(e) => self@.symbol is None && e is SymbolNotSet,
            },
            r matches Ok(q) ==> get_bars_keeps_builder_values(self@, q@),
    {
        let symbol = match self.symbol {
            Some(s) => s,
            None => return Err(Error::SymbolNotSet),
        };
        Ok(GetBarsQuery {
            symbol,
            interval: match self.interval { Some(i) => i, None => 1 },
            unit: match self.unit { Some(u) => u, None => BarUnit::Daily },
            bars_back: self.bars_back,
            first_date: self.first_date,
            last_date: self.last_date,
            session_template: match self.session_template {
                Some(t) => t,
                None => SessionTemplate::Default,
            },
            start_date: self.start_date,
        })
    }
}

/// Builder pattern struct for [`StreamBarsQuery`].
#[derive(Debug, Default)]
pub struct StreamBarsQueryBuilder {
    symbol: Option<String>,
    interval: Option<i16>,
    unit: Option<BarUnit>,
    bars_back: Option<u32>,
    session_template: Option<SessionTemplate>,
}

/// The plain values of a [`StreamBarsQueryBuilder`]: what has been set so far.
pub struct StreamBarsQueryBuilderView {
    pub symbol: Option<Seq<char>>,
    pub interval: Option<i16>,
    pub unit: Option<BarUnit>,
    pub bars_back: Option<u32>,
    pub session_template: Option<SessionTemplate>,
}

impl View for StreamBarsQueryBuilder {
    type V = StreamBarsQueryBuilderView;

    closed spec fn view(&self) -> StreamBarsQueryBuilderView {
        StreamBarsQueryBuilderView {
            symbol: opt_view(self.symbol),
            interval: self.interval,
            unit: self.unit,
            bars_back: self.bars_back,
            session_template: self.session_template,
        }
    }
}

/// The bar stream query that a builder with a symbol produces: unset values
/// take their defaults (interval 1, daily bars, 1 bar back, the default
/// session template).
pub open spec fn stream_bars_query_from(b: StreamBarsQueryBuilderView) -> StreamBarsQueryView {
    StreamBarsQueryView {
        symbol: b.symbol->0,
        interval: match b.interval { Some(i) => i, None => 1i16 },
        unit: match b.unit { Some(u) => u, None => BarUnit::Daily },
        bars_back: match b.bars_back { Some(n) => n, None => 1u32 },
        session_template: match b.session_template { Some(t) => t, None => SessionTemplate::Default },
    }
}

impl StreamBarsQueryBuilder {
    /// Create a new builder with nothing set.
    pub fn new() -> (r: Self)
        ensures
            r@ == (StreamBarsQueryBuilderView {
                symbol: None,
                interval: None,
                unit: None,
                bars_back: None,
                session_template: None,
            }),
    {
        StreamBarsQueryBuilder {
            symbol: None,
            interval: None,
            unit: None,
            bars_back: None,
            session_template: None,
        }
    }

    /// Set the symbol.
    pub fn symbol(self, symbol: &str) -> (r: Self)
        ensures
            r@ == (StreamBarsQueryBuilderView { symbol: Some(symbol@), ..self@ }),
    {
        StreamBarsQueryBuilder { symbol: Some(String::from_str(symbol)), ..self }
    }

    /// Set the interval.
    pub fn interval(self, interval: i16) -> (r: Self)
        ensures
            r@ == (StreamBarsQueryBuilderView { interval: Some(interval), ..self@ }),
    {
        StreamBarsQueryBuilder { interval: Some(interval), ..self }
    }

    /// Set the unit of time of each bar interval.
    pub fn unit(self, unit: BarUnit) -> (r: Self)
        ensures
            r@ == (StreamBarsQueryBuilderView { unit: Some(unit), ..self@ }),
    {
        StreamBarsQueryBuilder { unit: Some(unit), ..self }
    }

    /// Set the number of bars back.
    pub fn bars_back(self, bars_back: u32) -> (r: Self)
        ensures
            r@ == (StreamBarsQueryBuilderView { bars_back: Some(bars_back), ..self@ }),
    {
        StreamBarsQueryBuilder { bars_back: Some(bars_back), ..self }
    }

    /// Ask for the largest number of bars back (57,600).
    pub fn max_bars_back(self) -> (r: Self)
        ensures
            r@ == (StreamBarsQueryBuilderView { bars_back: Some(MAX_BARS_BACK), ..self@ }),
    {
        StreamBarsQueryBuilder { bars_back: Some(MAX_BARS_BACK), ..self }
    }

    /// Set the session template.
    pub fn session_template(self, session_template: SessionTemplate) -> (r: Self)
        ensures
            r@ == (StreamBarsQueryBuilderView { session_template: Some(session_template), ..self@ }),
    {
        StreamBarsQueryBuilder { session_template: Some(session_template), ..self }
    }

    /// Finish building the [`StreamBarsQuery`].
    ///
    /// NOTE: Setting the symbol is required before building.
    pub fn build(self) -> (r: Result<StreamBarsQuery, Error>)
        ensures
            match r {
                Ok(q) => self@.symbol is Some && q@ == stream_bars_query_from(self@),
                Err(e) => self@.symbol is None && e is SymbolNotSet,
            },
            r matches Ok(q) ==> stream_bars_keeps_builder_values(self@, q@),
    {
        let symbol = match self.symbol {
            Some(s) => s,
            None => return Err(Error::SymbolNotSet),
        };
        Ok(StreamBarsQuery {
            symbol,
            interval: match self.interval { Some(i) => i, None => 1 },
            unit: match self.unit { Some(u) => u, None => BarUnit::Daily },
            bars_back: match self.bars_back { Some(n) => n, None => 1 },
            session_template: match self.session_template {
                Some(t) => t,
                None => SessionTemplate::Default,
            },
        })
    }
}

} // verus!

verus! {

/// Whether a bars query carries what was set on its builder: every set value
/// as it was set; an unset interval is 1, an unset unit daily, an unset
/// session template the default one; unset dates and bar counts stay unset.
pub open spec fn get_bars_keeps_builder_values(b: GetBarsQueryBuilderView, q: GetBarsQueryView) -> bool {
    &&& b.symbol == Some(q.symbol)
    &&& (b.interval matches Some(i) ==> q.interval == i)
    &&& (b.interval is None ==> q.interval == 1)
    &&& (b.unit matches Some(u) ==> q.unit == u)
    &&& (b.unit is None ==> q.unit == BarUnit::Daily)
    &&& q.bars_back == b.bars_back
    &&& q.first_date == b.first_date
    &&& q.last_date == b.last_date
    &&& (b.session_template matches Some(t) ==> q.session_template == t)
    &&& (b.session_template is None ==> q.session_template == SessionTemplate::Default)
    &&& q.start_date == b.start_date
}

/// Whether a bar stream query carries what was set on its builder: every set
/// value as it was set; an unset interval is 1, an unset unit daily, an unset
/// bar count 1, an unset session template the default one.
pub open spec fn stream_bars_keeps_builder_values(b: StreamBarsQueryBuilderView, q: StreamBarsQueryView) -> bool {
    &&& b.symbol == Some(q.symbol)
    &&& (b.interval matches Some(i) ==> q.interval == i)
    &&& (b.interval is None ==> q.interval == 1)
    &&& (b.unit matches Some(u) ==> q.unit == u)
    &&& (b.unit is None ==> q.unit == BarUnit::Daily)
    &&& (b.bars_back matches Some(n) ==> q.bars_back == n)
    &&& (b.bars_back is None ==> q.bars_back == 1)
    &&& (b.session_template matches Some(t) ==> q.session_template == t)
    &&& (b.session_template is None ==> q.session_template == SessionTemplate::Default)
}

/// A bars query built from a builder with a symbol carries every value set
/// on the builder, and only unset values take their defaults; in particular,
/// setting a session template and then building keeps that template.
pub proof fn law_bars_builds_keep_set_values(
    gb: GetBarsQueryBuilderView,
    sb: StreamBarsQueryBuilderView,
    t: SessionTemplate,
)
    ensures
        gb.symbol is Some ==> get_bars_keeps_builder_values(gb, get_bars_query_from(gb)),
        sb.symbol is Some ==> stream_bars_keeps_builder_values(sb, stream_bars_query_from(sb)),
        gb.symbol is Some ==> get_bars_query_from(
            GetBarsQueryBuilderView { session_template: Some(t), ..gb },
        ).session_template == t,
        sb.symbol is Some ==> stream_bars_query_from(
            StreamBarsQueryBuilderView { session_template: Some(t), ..sb },
        ).session_template == t,
{
}

/// A parameter `key=value` at a place after the first is sent after an
/// ampersand.
proof fn lemma_bar_param_sent(params: Seq<Seq<char>>, i: int, key: Seq<char>, amp_key: Seq<char>, value: Seq<char>)
    requires
        0 < i < params.len(),
        params[i] == key + value,
        amp_key == "&"@ + key,
    ensures
        has_infix("?"@ + join(params, "&"@), amp_key + value),
{
    lemma_query_has_param(params, i);
    assert("&"@ + params[i] =~= amp_key + value);
}

/// A bar stream query sends the interval first, then the unit, the number
/// of bars back and the session template.
pub proof fn law_stream_bars_query_sends_every_value(q: StreamBarsQueryView)
    ensures
        has_prefix(stream_bars_query_text(q), "?interval="@ + signed_decimal(q.interval as int)),
        has_infix(stream_bars_query_text(q), "&unit="@ + bar_unit_name(q.unit)),
        has_infix(stream_bars_query_text(q), "&barsBack="@ + decimal(q.bars_back as nat)),
        has_infix(stream_bars_query_text(q), "&sessionTemplate="@ + session_template_name(q.session_template)),
{
    reveal_strlit("?");
    reveal_strlit("&");
    reveal_strlit("interval=");
    reveal_strlit("?interval=");
    reveal_strlit("unit=");
    reveal_strlit("&unit=");
    reveal_strlit("barsBack=");
    reveal_strlit("&barsBack=");
    reveal_strlit("sessionTemplate=");
    reveal_strlit("&sessionTemplate=");
    let params = stream_bars_params(q);
    lemma_query_has_param(params, 0);
    assert("?interval="@ =~= "?"@ + "interval="@);
    assert("?"@ + params[0] =~= "?interval="@ + signed_decimal(q.interval as int));
    assert("&unit="@ =~= "&"@ + "unit="@);
    lemma_bar_param_sent(params, 1, "unit="@, "&unit="@, bar_unit_name(q.unit));
    assert("&barsBack="@ =~= "&"@ + "barsBack="@);
    lemma_bar_param_sent(params, 2, "barsBack="@, "&barsBack="@, decimal(q.bars_back as nat));
    assert("&sessionTemplate="@ =~= "&"@ + "sessionTemplate="@);
    lemma_bar_param_sent(params, 3, "sessionTemplate="@, "&sessionTemplate="@, session_template_name(q.session_template));
}

/// How many values an optional value is: one when it is present.
pub open spec fn count_present<A>(o: Option<A>) -> int {
    if o is Some { 1 } else { 0 }
}

/// A bars query sends the interval first, then the unit, the session
/// template, and each optional value (bars back, first date, last date,
/// start date) that is set.
pub proof fn law_get_bars_query_sends_every_value(q: GetBarsQueryView)
    ensures
        has_prefix(get_bars_query_text(q), "?interval="@ + signed_decimal(q.interval as int)),
        has_infix(get_bars_query_text(q), "&unit="@ + bar_unit_name(q.unit)),
        has_infix(get_bars_query_text(q), "&sessionTemplate="@ + session_template_name(q.session_template)),
        q.bars_back matches Some(n) ==> has_infix(get_bars_query_text(q), "&barsBack="@ + decimal(n as nat)),
        q.first_date matches Some(d) ==> has_infix(get_bars_query_text(q), "&firstDate="@ + d),
        q.last_date matches Some(d) ==> has_infix(get_bars_query_text(q), "&lastDate="@ + d),
        q.start_date matches Some(d) ==> has_infix(get_bars_query_text(q), "&startDate="@ + d),
{
    reveal_strlit("?");
    reveal_strlit("&");
    reveal_strlit("interval=");
    reveal_strlit("?interval=");
    reveal_strlit("unit=");
    reveal_strlit("&unit=");
    reveal_strlit("barsBack=");
    reveal_strlit("&barsBack=");
    reveal_strlit("firstDate=");
    reveal_strlit("&firstDate=");
    reveal_strlit("lastDate=");
    reveal_strlit("&lastDate=");
    reveal_strlit("sessionTemplate=");
    reveal_strlit("&sessionTemplate=");
    reveal_strlit("startDate=");
    reveal_strlit("&startDate=");
    let params = get_bars_params(q);
    lemma_query_has_param(params, 0);
    assert("?interval="@ =~= "?"@ + "interval="@);
    assert("?"@ + params[0] =~= "?interval="@ + signed_decimal(q.interval as int));
    assert("&unit="@ =~= "&"@ + "unit="@);
    lemma_bar_param_sent(params, 1, "unit="@, "&unit="@, bar_unit_name(q.unit));
    let nb = count_present(q.bars_back);
    let nf = count_present(q.first_date);
    let nl = count_present(q.last_date);
    if let Some(n) = q.bars_back {
        assert("&barsBack="@ =~= "&"@ + "barsBack="@);
        lemma_bar_param_sent(params, 2, "barsBack="@, "&barsBack="@, decimal(n as nat));
    }
    if let Some(d) = q.first_date {
        assert("&firstDate="@ =~= "&"@ + "firstDate="@);
        lemma_bar_param_sent(params, 2 + nb, "firstDate="@, "&firstDate="@, d);
    }
    if let Some(d) = q.last_date {
        assert("&lastDate="@ =~= "&"@ + "lastDate="@);
        lemma_bar_param_sent(params, 2 + nb + nf, "lastDate="@, "&lastDate="@, d);
    }
    assert("&sessionTemplate="@ =~= "&"@ + "sessionTemplate="@);
    lemma_bar_param_sent(
        params,
        2 + nb + nf + nl,
        "sessionTemplate="@,
        "&sessionTemplate="@,
        session_template_name(q.session_template),
    );
    if let Some(d) = q.start_date {
        assert("&startDate="@ =~= "&"@ + "startDate="@);
        lemma_bar_param_sent(params, 3 + nb + nf + nl, "startDate="@, "&startDate="@, d);
    }
}

} // verus!
