use tradestation::accounting::orders::{OrderRelationship, OrderType};
use tradestation::execution::{
    Duration, OrderRequest, OrderRequestBuilder, OrderRequestGroup, OrderRequestGroupBuilder,
    OrderTicket, OrderTimeInForce, Route, TradeAction,
};
use tradestation::execution::{ActivationTrigger, OrderUpdate};
use tradestation::Error;
use tradestation::accounting::orders::{Order, OrderStatus};

fn day() -> OrderTimeInForce {
    OrderTimeInForce { duration: Duration::DAY, expiration: None }
}

fn full_builder() -> OrderRequestBuilder {
    OrderRequestBuilder::new()
        .account_id("ACC")
        .symbol("XLRE")
        .trade_action(TradeAction::Buy)
        .quantity("15")
        .order_type(OrderType::Limit)
        .limit_price("30")
        .time_in_force(day())
}

#[test]
fn order_request_builds_with_required_values() {
    let req = full_builder().route("Intelligent").build().unwrap();
    assert_eq!(req.account_id, "ACC");
    assert_eq!(req.symbol.as_deref(), Some("XLRE"));
    assert_eq!(req.quantity.as_deref(), Some("15"));
    assert_eq!(req.limit_price.as_deref(), Some("30"));
    assert_eq!(req.route.as_deref(), Some("Intelligent"));
    assert_eq!(req.order_type, OrderType::Limit);
    assert_eq!(req.trade_action, Some(TradeAction::Buy));
    assert_eq!(req.time_in_force.duration, Duration::DAY);
    assert!(req.stop_price.is_none());
}

#[test]
fn order_request_missing_values_in_order() {
    assert!(matches!(OrderRequestBuilder::new().build(), Err(Error::AccountIdNotSet)));
    assert!(matches!(
        OrderRequestBuilder::new().account_id("A").order_type(OrderType::Market).build(),
        Err(Error::TimeInForceNotSet)
    ));
    assert!(matches!(
        OrderRequestBuilder::new().account_id("A").time_in_force(day()).build(),
        Err(Error::OrderTypeNotSet)
    ));
    assert!(matches!(
        OrderRequestBuilder::new().time_in_force(day()).order_type(OrderType::Market).build(),
        Err(Error::AccountIdNotSet)
    ));
}

#[test]
fn order_group_builder() {
    let reqs = vec![full_builder().build().unwrap(), full_builder().build().unwrap()];
    let group = OrderRequestGroupBuilder::new()
        .order_requests(reqs)
        .group_type(OrderRelationship::OCO)
        .build()
        .unwrap();
    assert_eq!(group.order_requests.len(), 2);
    assert_eq!(group.group_type, OrderRelationship::OCO);
    assert!(matches!(
        OrderRequestGroupBuilder::new().group_type(OrderRelationship::BRK).build(),
        Err(Error::OrderRequestsNotSet)
    ));
    assert!(matches!(
        OrderRequestGroupBuilder::new().order_requests(vec![]).build(),
        Err(Error::OrderGroupTypeNotSet)
    ));
}

#[test]
fn order_update_setters() {
    let update = OrderUpdate::new().limit_price("10.75").quantity("5").order_type(OrderType::StopLimit);
    assert_eq!(update.limit_price.as_deref(), Some("10.75"));
    assert_eq!(update.quantity.as_deref(), Some("5"));
    assert_eq!(update.order_type, Some(OrderType::StopLimit));
    assert!(update.stop_price.is_none());
}

#[test]
fn ticket_and_execution_endpoints() {
    let ticket = OrderTicket::from_id("1234");
    assert_eq!(ticket.order_id, "1234");
    assert_eq!(ticket.message, "");
    assert!(ticket.error.is_none());
    assert_eq!(ticket.endpoint(), "orderexecution/orders/1234");
    assert_eq!(OrderRequest::place_endpoint(), "orderexecution/orders");
    assert_eq!(OrderRequest::confirm_endpoint(), "orderexecution/orderconfirm");
    assert_eq!(OrderRequestGroup::place_endpoint(), "orderexecution/ordergroups");
    assert_eq!(OrderRequestGroup::confirm_endpoint(), "orderexecution/ordergroupconfirm");
    assert_eq!(Route::list_endpoint(), "orderexecution/routes");
    assert_eq!(ActivationTrigger::list_endpoint(), "orderexecution/activationtriggers");
}

#[test]
fn placed_order_endpoint() {
    let order = Order {
        account_id: String::from("ACC"),
        advanced_options: None,
        closed_date_time: None,
        commission_fee: String::from("0"),
        conditional_orders: None,
        conversion_rate: None,
        currency: String::from("USD"),
        duration: String::from("DAY"),
        filled_price: None,
        good_till_date: None,
        group_name: None,
        legs: vec![],
        market_activation_rules: vec![],
        time_activation_rules: vec![],
        limit_price: Some(String::from("30")),
        opened_date_time: String::from("2024-01-02T14:30:00Z"),
        order_id: String::from("987"),
        order_type: OrderType::Limit,
        price_used_for_buying_power: String::from("30"),
        routing: None,
        show_only_quantity: None,
        spread: None,
        status: OrderStatus::ACK,
        status_description: String::from("Received"),
        stop_price: None,
        trailing_stop: None,
        unbundled_route_fee: None,
    };
    assert_eq!(order.execution_endpoint(), "orderexecution/orders/987");
}
