use tradestation::accounting::orders::AssetType;
use tradestation::accounting::{
    Account, AccountDetail, AccountResource, AccountStream, AccountType, MultipleAccounts,
    OptionApprovalLevel, Position, PositionType,
};
use tradestation::Error;

fn account(id: &str, currency: &str) -> Account {
    Account {
        account_id: String::from(id),
        currency: String::from(currency),
        account_type: AccountType::Margin,
        account_detail: Some(AccountDetail {
            is_stock_locate_eligible: false,
            enrolled_in_reg_t_program: true,
            requires_buying_power_warning: false,
            day_trading_qualified: true,
            option_approval_level: OptionApprovalLevel::Two,
            pattern_day_trader: false,
            crypto_enabled: false,
        }),
    }
}

fn position(id: &str) -> Position {
    Position {
        account_id: String::from("ACC"),
        asset_type: AssetType::Stock,
        average_price: String::from("10"),
        bid: String::from("9.9"),
        ask: String::from("10.1"),
        conversion_rate: String::from("1"),
        day_trade_requirement: String::from("0"),
        expiration_date: None,
        initial_requirement: String::from("0"),
        last: String::from("10"),
        long_short: PositionType::Long,
        mark_to_market_price: String::from("10"),
        market_value: String::from("100"),
        position_id: String::from(id),
        quantity: String::from("10"),
        symbol: String::from("SPY"),
        timestamp: String::from("2024-01-01T00:00:00Z"),
        todays_pnl: String::from("0"),
        total_cost: String::from("100"),
        unrealized_pnl: String::from("0"),
        unrealized_pnl_percent: String::from("0"),
        unrealized_pnl_qty: String::from("0"),
    }
}

#[test]
fn approval_levels_round_trip() {
    for n in 0u8..=5 {
        assert_eq!(OptionApprovalLevel::from_level(n).unwrap().level(), n);
    }
    assert_eq!(OptionApprovalLevel::from_level(3).unwrap(), OptionApprovalLevel::Three);
    assert_eq!(OptionApprovalLevel::Five.level(), 5);
}

#[test]
fn approval_level_out_of_range() {
    assert_eq!(OptionApprovalLevel::from_level(6).unwrap_err(), "Invalid OptionApprovalLevel: 6");
    assert_eq!(OptionApprovalLevel::from_level(255).unwrap_err(), "Invalid OptionApprovalLevel: 255");
}

#[test]
fn select_by_id_takes_the_first_match() {
    let accounts = vec![account("1", "USD"), account("2", "USD"), account("2", "EUR")];
    let found = Account::select_by_id(accounts, "2").unwrap();
    assert_eq!(found.account_id, "2");
    assert_eq!(found.currency, "USD");
}

#[test]
fn select_by_id_reports_missing_account() {
    let accounts = vec![account("1", "USD")];
    assert!(matches!(Account::select_by_id(accounts, "9"), Err(Error::AccountNotFound)));
    assert!(matches!(Account::select_by_id(vec![], "1"), Err(Error::AccountNotFound)));
}

#[test]
fn find_by_id_takes_the_last_match() {
    let accounts = vec![account("1", "USD"), account("2", "USD"), account("2", "EUR")];
    let found = accounts.find_by_id("2").unwrap();
    assert_eq!(found.currency, "EUR");
    assert!(accounts.find_by_id("3").is_none());
}

#[test]
fn account_ids_in_order() {
    let accounts = vec![account("11", "USD"), account("22", "USD")];
    assert_eq!(Account::ids(&accounts), vec![String::from("11"), String::from("22")]);
}

#[test]
fn resource_endpoints() {
    let ids = vec![String::from("11"), String::from("22")];
    assert_eq!(AccountResource::Balances.endpoint(&ids), "brokerage/accounts/11,22/balances");
    assert_eq!(AccountResource::BODBalances.endpoint(&ids), "brokerage/accounts/11,22/bodbalances");
    assert_eq!(AccountResource::Orders.endpoint(&ids), "brokerage/accounts/11,22/orders");
    assert_eq!(
        AccountResource::OrdersById(vec![String::from("o1"), String::from("o2")]).endpoint(&ids),
        "brokerage/accounts/11,22/orders/o1,o2"
    );
    assert_eq!(
        AccountResource::HistoricalOrders(String::from("2024-01-01")).endpoint(&ids),
        "brokerage/accounts/11,22/historicalorders?since=2024-01-01"
    );
    assert_eq!(AccountResource::Positions.endpoint(&ids), "brokerage/accounts/11,22/positions");
    assert_eq!(
        AccountResource::PositionsInSymbols(String::from("SPY,QQQ")).endpoint(&ids),
        "brokerage/accounts/11,22/positions?symbol=SPY,QQQ"
    );
}

#[test]
fn stream_endpoints() {
    let ids = vec![String::from("11")];
    assert_eq!(AccountStream::Orders.endpoint(&ids), "brokerage/stream/accounts/11/orders");
    assert_eq!(
        AccountStream::OrdersById(vec![String::from("o1")]).endpoint(&ids),
        "brokerage/stream/accounts/11/orders/o1"
    );
    assert_eq!(AccountStream::Positions.endpoint(&ids), "brokerage/stream/accounts/11/positions");
    let a = account("77", "USD");
    assert_eq!(a.stream_endpoint(&AccountStream::Positions), "brokerage/stream/accounts/77/positions");
    assert_eq!(a.resource_endpoint(&AccountResource::Balances), "brokerage/accounts/77/balances");
    assert_eq!(Account::list_endpoint(), "brokerage/accounts");
}

#[test]
fn keep_ids_filters_in_order() {
    let positions = vec![position("p1"), position("p2"), position("p3"), position("p2")];
    let kept = Position::keep_ids(positions, &vec![String::from("p2"), String::from("p3")]);
    let ids: Vec<&str> = kept.iter().map(|p| p.position_id.as_str()).collect();
    assert_eq!(ids, vec!["p2", "p3", "p2"]);
    let none = Position::keep_ids(vec![position("p1")], &vec![]);
    assert!(none.is_empty());
}

#[test]
fn first_of_takes_the_first() {
    let p = Position::first_of(vec![position("a"), position("b")]);
    assert_eq!(p.position_id, "a");
}

#[test]
fn position_or_not_found_reports_missing() {
    let found = Position::position_or_not_found(vec![position("a"), position("b")], "a", "ACC").unwrap();
    assert_eq!(found.position_id, "a");
    match Position::position_or_not_found(vec![], "p9", "11,22") {
        Err(Error::PositionNotFound(p, a)) => {
            assert_eq!(p, "p9");
            assert_eq!(a, "11,22");
        }
        other => panic!("unexpected: {other:?}"),
    }
}
