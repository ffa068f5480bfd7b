use std::str::FromStr;
use tradestation::market_data::market_depth::MarketDepthKind;
use tradestation::market_data::options::risk_reward_endpoint;
use tradestation::market_data::{
    BarUnit, GetBarsQueryBuilder, OptionChainQueryBuilder, OptionExpiration, OptionQouteLeg,
    OptionQuoteQueryBuilder, OptionSpreadStrikesQueryBuilder, OptionSpreadType, OptionStrikeRange,
    OptionType, Quote, SessionTemplate, StreamBarsQueryBuilder, SymbolDetails,
};
use tradestation::Error;

#[test]
fn get_bars_query_string() {
    let q = GetBarsQueryBuilder::new()
        .symbol("NVDA")
        .interval(5)
        .unit(BarUnit::Minute)
        .bars_back(10)
        .build()
        .unwrap();
    assert_eq!(q.as_query_string(), "?interval=5&unit=Minute&barsBack=10&sessionTemplate=Default");
    assert_eq!(
        q.endpoint(),
        "marketdata/barcharts/NVDA?interval=5&unit=Minute&barsBack=10&sessionTemplate=Default"
    );
}

#[test]
fn get_bars_defaults_and_optional_dates() {
    let q = GetBarsQueryBuilder::new()
        .symbol("SPY")
        .first_date("2024-01-01")
        .last_date("2024-02-01")
        .session_template(SessionTemplate::USEQPreAndPost)
        .start_date("2024-01-15")
        .build()
        .unwrap();
    assert_eq!(
        q.as_query_string(),
        "?interval=1&unit=Daily&firstDate=2024-01-01&lastDate=2024-02-01&sessionTemplate=USEQPreAndPost&startDate=2024-01-15"
    );
    let max = GetBarsQueryBuilder::new().symbol("SPY").max_bars_back().build().unwrap();
    assert_eq!(max.bars_back, Some(57600));
    let negative = GetBarsQueryBuilder::new().symbol("SPY").interval(-3).build().unwrap();
    assert_eq!(negative.as_query_string(), "?interval=-3&unit=Daily&sessionTemplate=Default");
}

#[test]
fn bars_require_symbol() {
    assert!(matches!(GetBarsQueryBuilder::new().build(), Err(Error::SymbolNotSet)));
    assert!(matches!(StreamBarsQueryBuilder::new().build(), Err(Error::SymbolNotSet)));
}

#[test]
fn stream_bars_query_string() {
    let q = StreamBarsQueryBuilder::new()
        .symbol("CLX30")
        .unit(BarUnit::Minute)
        .interval(240)
        .build()
        .unwrap();
    assert_eq!(q.bars_back, 1);
    assert_eq!(q.as_query_string(), "?interval=240&unit=Minute&barsBack=1&sessionTemplate=Default");
    assert_eq!(
        q.endpoint(),
        "marketdata/stream/barcharts/CLX30?interval=240&unit=Minute&barsBack=1&sessionTemplate=Default"
    );
}

#[test]
fn bar_unit_and_session_template_names_parse() {
    assert_eq!(BarUnit::from_str("MINUTE").unwrap(), BarUnit::Minute);
    assert_eq!(BarUnit::from_str("daily").unwrap(), BarUnit::Daily);
    assert_eq!(BarUnit::from_str(BarUnit::Monthly.name()).unwrap(), BarUnit::Monthly);
    assert_eq!(BarUnit::from_str("hourly").unwrap_err(), "Invalid value for BarUnit: {s}");
    assert_eq!(SessionTemplate::from_str("USEQ24Hour").unwrap(), SessionTemplate::USEQ24Hour);
    assert_eq!(SessionTemplate::from_str("default").unwrap(), SessionTemplate::Default);
    assert_eq!(
        SessionTemplate::from_str("night").unwrap_err(),
        "Invalid value for SessionTemplate: {s}"
    );
}

#[test]
fn option_expirations_endpoint() {
    assert_eq!(OptionExpiration::endpoint("NET", None), "marketdata/options/expirations/NET");
    assert_eq!(
        OptionExpiration::endpoint("SPY", Some("580")),
        "marketdata/options/expirations/SPY?strikePrice=580"
    );
}

#[test]
fn spread_types() {
    let all = OptionSpreadType::all();
    assert_eq!(all.len(), 16);
    assert!(all.contains(&OptionSpreadType::IronCondor));
    assert!(OptionSpreadType::Vertical.involves_strike_interval());
    assert!(!OptionSpreadType::Single.involves_strike_interval());
    assert!(OptionSpreadType::Calendar.involves_expiration_interval());
    assert!(!OptionSpreadType::Butterfly.involves_expiration_interval());
    assert_eq!(OptionSpreadType::RatioBack1x2.name(), "RatioBack1x2");
    assert_eq!(risk_reward_endpoint(), "marketdata/options/riskreward");
}

#[test]
fn spread_strikes_endpoint() {
    let q = OptionSpreadStrikesQueryBuilder::new().underlying("AAPL").build().unwrap();
    assert_eq!(q.endpoint(), "marketdata/options/strikes/AAPL?spreadType=Single&strikeInterval=1");
    let q = OptionSpreadStrikesQueryBuilder::new()
        .underlying("AAPL")
        .spread_type(OptionSpreadType::Calendar)
        .strike_interval(2)
        .expiration("2025-01-17")
        .expiration2("2025-02-21")
        .build()
        .unwrap();
    assert_eq!(
        q.endpoint(),
        "marketdata/options/strikes/AAPL?spreadType=Calendar&strikeInterval=2&expiration=2025-01-17&expiration2=2025-02-21"
    );
    let only_second = OptionSpreadStrikesQueryBuilder::new()
        .underlying("AAPL")
        .expiration2("2025-02-21")
        .build()
        .unwrap();
    assert_eq!(only_second.endpoint(), "marketdata/options/strikes/AAPL?spreadType=Single&strikeInterval=1");
    assert!(matches!(OptionSpreadStrikesQueryBuilder::new().build(), Err(Error::SymbolNotSet)));
}

#[test]
fn option_chain_query_string() {
    let q = OptionChainQueryBuilder::new().underlying("TLT").build().unwrap();
    assert_eq!(
        q.as_query_string(),
        "?strikeInterval=1&strikeProximity=5&spreadType=Single&enableGreeks=true&strikeRange=All&optionType=All"
    );
    let q = OptionChainQueryBuilder::new()
        .underlying("TLT")
        .expiration("2024-11-15")
        .spread_type(OptionSpreadType::Straddle)
        .strike_proximity(3)
        .enable_greeks(false)
        .strike_range(OptionStrikeRange::OTM)
        .option_type(OptionType::Put)
        .risk_free_rate("0.02")
        .price_center("99.5")
        .build()
        .unwrap();
    assert_eq!(
        q.endpoint(),
        "marketdata/stream/options/chains/TLT?strikeInterval=1&strikeProximity=3&spreadType=Straddle&enableGreeks=false&strikeRange=OTM&optionType=Put&expiration=2024-11-15&riskFreeRate=0.02&priceCenter=99.5"
    );
    assert!(matches!(OptionChainQueryBuilder::new().build(), Err(Error::SymbolNotSet)));
}

#[test]
fn option_quote_query_string() {
    let legs = vec![
        OptionQouteLeg { symbol: String::from("TLT 241115C99"), ratio: 1 },
        OptionQouteLeg { symbol: String::from("TLT 241115P99"), ratio: -2 },
    ];
    let q = OptionQuoteQueryBuilder::new().legs(legs).build().unwrap();
    assert_eq!(
        q.as_query_string(),
        "?legs[0].Symbol=TLT 241115C99&legs[0].Ratio=1&legs[1].Symbol=TLT 241115P99&legs[1].Ratio=-2&enableGreeks=true"
    );
    let q = OptionQuoteQueryBuilder::new()
        .legs(vec![OptionQouteLeg { symbol: String::from("X"), ratio: 3 }])
        .risk_free_rate("0.05")
        .enable_greeks(false)
        .build()
        .unwrap();
    assert_eq!(
        q.endpoint(),
        "marketdata/stream/options/quotes?legs[0].Symbol=X&legs[0].Ratio=3&riskFreeRate=0.05&enableGreeks=false"
    );
    assert!(matches!(OptionQuoteQueryBuilder::new().build(), Err(Error::OptionLegsNotSet)));
}

#[test]
fn quote_and_symbol_endpoints() {
    let symbols = vec!["SPY", "QQQ"];
    assert_eq!(Quote::endpoint(&symbols), "marketdata/quotes/SPY,QQQ");
    assert_eq!(Quote::stream_endpoint(&symbols), "marketdata/stream/quotes/SPY,QQQ");
    assert_eq!(SymbolDetails::endpoint(&vec!["MSFT"]), "marketdata/symbols/MSFT");
}

#[test]
fn market_depth_endpoints() {
    assert_eq!(
        MarketDepthKind::Quotes.endpoint("SPY", None),
        "marketdata/stream/marketdepth/quotes/SPY?maxlevels=20"
    );
    assert_eq!(
        MarketDepthKind::Aggregates.endpoint("ES", Some(5)),
        "marketdata/stream/marketdepth/aggregates/ES?maxlevels=5"
    );
}

#[test]
fn every_name_parses_back() {
    for unit in [BarUnit::Minute, BarUnit::Daily, BarUnit::Weekly, BarUnit::Monthly] {
        assert_eq!(BarUnit::parse_name(unit.name()).unwrap(), unit);
    }
    for template in [
        SessionTemplate::USEQPre,
        SessionTemplate::USEQPost,
        SessionTemplate::USEQPreAndPost,
        SessionTemplate::USEQ24Hour,
        SessionTemplate::Default,
    ] {
        assert_eq!(SessionTemplate::parse_name(template.name()).unwrap(), template);
    }
}
