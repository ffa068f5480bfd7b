//! Order requests and order request groups, and their builders.
use vstd::prelude::*;
use crate::accounting::orders::{OrderRelationship, OrderType};
use crate::error::Error;
use crate::text::opt_view;
use super::orders::{AdvancedOrderOptions, BPWarningStatus, OrderRequestLeg, OrderTimeInForce, Oso, TradeAction};

verus! {

/// A request to place an order.
#[derive(Debug)]
pub struct OrderRequest {
    /// The account to place the order in.
    pub account_id: String,
    /// Advanced options of the order.
    pub advanced_options: Option<AdvancedOrderOptions>,
    /// How a buying power warning is handled.
    pub buying_power_warning: Option<BPWarningStatus>,
    /// The legs of an option order.
    pub legs: Option<Vec<OrderRequestLeg>>,
    /// The limit price.
    pub limit_price: Option<String>,
    /// Orders sent when this one fills.
    pub osos: Option<Vec<Oso>>,
    /// The id of a confirmation of this order.
    pub order_confirm_id: Option<String>,
    /// The type of the order.
    pub order_type: OrderType,
    /// The quantity.
    pub quantity: Option<String>,
    /// The route of the order.
    pub route: Option<String>,
    /// The stop price.
    pub stop_price: Option<String>,
    /// The symbol.
    pub symbol: Option<String>,
    /// How long the order stays in force.
    pub time_in_force: OrderTimeInForce,
    /// The trade action.
    pub trade_action: Option<TradeAction>,
}

/// The plain values of an [`OrderRequest`]; texts by their characters, the
/// nested parts as they are.
pub struct OrderRequestView {
    pub account_id: Seq<char>,
    pub advanced_options: Option<AdvancedOrderOptions>,
    pub buying_power_warning: Option<BPWarningStatus>,
    pub legs: Option<Vec<OrderRequestLeg>>,
    pub limit_price: Option<Seq<char>>,
    pub osos: Option<Vec<Oso>>,
    pub order_confirm_id: Option<Seq<char>>,
    pub order_type: OrderType,
    pub quantity: Option<Seq<char>>,
    pub route: Option<Seq<char>>,
    pub stop_price: Option<Seq<char>>,
    pub symbol: Option<Seq<char>>,
    pub time_in_force: OrderTimeInForce,
    pub trade_action: Option<TradeAction>,
}

impl View for OrderRequest {
    type V = OrderRequestView;

    open spec fn view(&self) -> OrderRequestView {
        OrderRequestView {
            account_id: self.account_id@,
            advanced_options: self.advanced_options,
            buying_power_warning: self.buying_power_warning,
            legs: self.legs,
            limit_price: opt_view(self.limit_price),
            osos: self.osos,
            order_confirm_id: opt_view(self.order_confirm_id),
            order_type: self.order_type,
            quantity: opt_view(self.quantity),
            route: opt_view(self.route),
            stop_price: opt_view(self.stop_price),
            symbol: opt_view(self.symbol),
            time_in_force: self.time_in_force,
            trade_action: self.trade_action,
        }
    }
}

/// Builder for an [`OrderRequest`].
#[derive(Debug, Default)]
pub struct OrderRequestBuilder {
    account_id: Option<String>,
    advanced_options: Option<AdvancedOrderOptions>,
    buying_power_warning: Option<BPWarningStatus>,
    legs: Option<Vec<OrderRequestLeg>>,
    limit_price: Option<String>,
    osos: Option<Vec<Oso>>,
    order_confirm_id: Option<String>,
    order_type: Option<OrderType>,
    quantity: Option<String>,
    route: Option<String>,
    stop_price: Option<String>,
    symbol: Option<String>,
    time_in_force: Option<OrderTimeInForce>,
    trade_action: Option<TradeAction>,
}

/// The plain values of an [`OrderRequestBuilder`]: what has been set so far.
pub struct OrderRequestBuilderView {
    pub account_id: Option<Seq<char>>,
    pub advanced_options: Option<AdvancedOrderOptions>,
    pub buying_power_warning: Option<BPWarningStatus>,
    pub legs: Option<Vec<OrderRequestLeg>>,
    pub limit_price: Option<Seq<char>>,
    pub osos: Option<Vec<Oso>>,
    pub order_confirm_id: Option<Seq<char>>,
    pub order_type: Option<OrderType>,
    pub quantity: Option<Seq<char>>,
    pub route: Option<Seq<char>>,
    pub stop_price: Option<Seq<char>>,
    pub symbol: Option<Seq<char>>,
    pub time_in_force: Option<OrderTimeInForce>,
    pub trade_action: Option<TradeAction>,
}

impl View for OrderRequestBuilder {
    type V = OrderRequestBuilderView;

    closed spec fn view(&self) -> OrderRequestBuilderView {
        OrderRequestBuilderView {
            account_id: opt_view(self.account_id),
            advanced_options: self.advanced_options,
            buying_power_warning: self.buying_power_warning,
            legs: self.legs,
            limit_price: opt_view(self.limit_price),
            osos: self.osos,
            order_confirm_id: opt_view(self.order_confirm_id),
            order_type: self.order_type,
            quantity: opt_view(self.quantity),
            route: opt_view(self.route),
            stop_price: opt_view(self.stop_price),
            symbol: opt_view(self.symbol),
            time_in_force: self.time_in_force,
            trade_action: self.trade_action,
        }
    }
}

/// The builder with nothing set.
pub open spec fn empty_order_request_builder() -> OrderRequestBuilderView {
    OrderRequestBuilderView {
        account_id: None,
        advanced_options: None,
        buying_power_warning: None,
        legs: None,
        limit_price: None,
        osos: None,
        order_confirm_id: None,
        order_type: None,
        quantity: None,
        route: None,
        stop_price: None,
        symbol: None,
        time_in_force: None,
        trade_action: None,
    }
}

/// The error a builder gives when it lacks a required value: the account id
/// is checked first, then the time in force, then the order type.
pub open spec fn order_request_missing(b: OrderRequestBuilderView) -> Option<Error> {
    if b.account_id is None {
        Some(Error::AccountIdNotSet)
    } else if b.time_in_force is None {
        Some(Error::TimeInForceNotSet)
    } else if b.order_type is None {
        Some(Error::OrderTypeNotSet)
    } else {
        None
    }
}

/// The order request of a builder that has every required value.
pub open spec fn order_request_from(b: OrderRequestBuilderView) -> OrderRequestView {
    OrderRequestView {
        account_id: b.account_id->0,
        advanced_options: b.advanced_options,
        buying_power_warning: b.buying_power_warning,
        legs: b.legs,
        limit_price: b.limit_price,
        osos: b.osos,
        order_confirm_id: b.order_confirm_id,
        order_type: b.order_type->0,
        quantity: b.quantity,
        route: b.route,
        stop_price: b.stop_price,
        symbol: b.symbol,
        time_in_force: b.time_in_force->0,
        trade_action: b.trade_action,
    }
}

/// Whether a request carries every value that was set on the builder: the
/// required ones as they were set, the optional ones set or unset alike.
pub open spec fn request_keeps_builder_values(b: OrderRequestBuilderView, req: OrderRequestView) -> bool {
    &&& b.account_id == Some(req.account_id)
    &&& b.order_type == Some(req.order_type)
    &&& b.time_in_force == Some(req.time_in_force)
    &&& req.advanced_options == b.advanced_options
    &&& req.buying_power_warning == b.buying_power_warning
    &&& req.legs == b.legs
    &&& req.limit_price == b.limit_price
    &&& req.osos == b.osos
    &&& req.order_confirm_id == b.order_confirm_id
    &&& req.quantity == b.quantity
    &&& req.route == b.route
    &&& req.stop_price == b.stop_price
    &&& req.symbol == b.symbol
    &&& req.trade_action == b.trade_action
}

/// A builder that has its required values builds a request that carries
/// every value set on it; in particular, setting a stop price (or a limit
/// price) and then building gives a request with that price.
pub proof fn law_built_request_keeps_set_values(b: OrderRequestBuilderView, stop: Seq<char>, limit: Seq<char>)
    ensures
        order_request_missing(b) is None ==> request_keeps_builder_values(b, order_request_from(b)),
        order_request_missing(b) is None ==> order_request_from(
            OrderRequestBuilderView { stop_price: Some(stop), ..b },
        ).stop_price == Some(stop),
        order_request_missing(b) is None ==> order_request_from(
            OrderRequestBuilderView { limit_price: Some(limit), ..b },
        ).limit_price == Some(limit),
        order_request_missing(b) is Some <==> (b.account_id is None || b.time_in_force is None
            || b.order_type is None),
{
}

impl OrderRequestBuilder {
    /// Create a new builder with nothing set.
    pub fn new() -> (r: Self)
        ensures
            r@ == empty_order_request_builder(),
    {
        OrderRequestBuilder {
            account_id: None,
            advanced_options: None,
            buying_power_warning: None,
            legs: None,
            limit_price: None,
            osos: None,
            order_confirm_id: None,
            order_type: None,
            quantity: None,
            route: None,
            stop_price: None,
            symbol: None,
            time_in_force: None,
            trade_action: None,
        }
    }

    /// Set the account id.
    pub fn account_id(self, id: &str) -> (r: Self)
        ensures
            r@ == (OrderRequestBuilderView { account_id: Some(id@), ..self@ }),
    {
        OrderRequestBuilder { account_id: Some(String::from_str(id)), ..self }
    }

    /// Set the order type.
    pub fn order_type(self, order_type: OrderType) -> (r: Self)
        ensures
            r@ == (OrderRequestBuilderView { order_type: Some(order_type), ..self@ }),
    {
        OrderRequestBuilder { order_type: Some(order_type), ..self }
    }

    /// Set the symbol.
    pub fn symbol(self, symbol: &str) -> (r: Self)
        ensures
            r@ == (OrderRequestBuilderView { symbol: Some(symbol@), ..self@ }),
    {
        OrderRequestBuilder { symbol: Some(String::from_str(symbol)), ..self }
    }

    /// Set the time in force.
    pub fn time_in_force(self, time_in_force: OrderTimeInForce) -> (r: Self)
        ensures
            r@ == (OrderRequestBuilderView { time_in_force: Some(time_in_force), ..self@ }),
    {
        OrderRequestBuilder { time_in_force: Some(time_in_force), ..self }
    }

    /// Set the quantity.
    pub fn quantity(self, quantity: &str) -> (r: Self)
        ensures
            r@ == (OrderRequestBuilderView { quantity: Some(quantity@), ..self@ }),
    {
        OrderRequestBuilder { quantity: Some(String::from_str(quantity)), ..self }
    }

    /// Set the trade action.
    pub fn trade_action(self, action: TradeAction) -> (r: Self)
        ensures
            r@ == (OrderRequestBuilderView { trade_action: Some(action), ..self@ }),
    {
        OrderRequestBuilder { trade_action: Some(action), ..self }
    }

    /// Set the route.
    pub fn route(self, route: &str) -> (r: Self)
        ensures
            r@ == (OrderRequestBuilderView { route: Some(route@), ..self@ }),
    {
        OrderRequestBuilder { route: Some(String::from_str(route)), ..self }
    }

    /// Set the stop price.
    pub fn stop_price(self, price: &str) -> (r: Self)
        ensures
            r@ == (OrderRequestBuilderView { stop_price: Some(price@), ..self@ }),
    {
        OrderRequestBuilder { stop_price: Some(String::from_str(price)), ..self }
    }

    /// Set the id of a confirmation of this order.
    pub fn order_confirm_id(self, id: &str) -> (r: Self)
        ensures
            r@ == (OrderRequestBuilderView { order_confirm_id: Some(id@), ..self@ }),
    {
        OrderRequestBuilder { order_confirm_id: Some(String::from_str(id)), ..self }
    }

    /// Set the orders sent when this one fills.
    pub fn osos(self, osos: Vec<Oso>) -> (r: Self)
        ensures
            r@ == (OrderRequestBuilderView { osos: Some(osos), ..self@ }),
    {
        OrderRequestBuilder { osos: Some(osos), ..self }
    }

    /// Set the limit price.
    pub fn limit_price(self, price: &str) -> (r: Self)
        ensures
            r@ == (OrderRequestBuilderView { limit_price: Some(price@), ..self@ }),
    {
        OrderRequestBuilder { limit_price: Some(String::from_str(price)), ..self }
    }

    /// Set the legs of an option order.
    pub fn legs(self, legs: Vec<OrderRequestLeg>) -> (r: Self)
        ensures
            r@ == (OrderRequestBuilderView { legs: Some(legs), ..self@ }),
    {
        OrderRequestBuilder { legs: Some(legs), ..self }
    }

    /// Set how a buying power warning is handled.
    pub fn buying_power_warning(self, status: BPWarningStatus) -> (r: Self)
        ensures
            r@ == (OrderRequestBuilderView { buying_power_warning: Some(status), ..self@ }),
    {
        OrderRequestBuilder { buying_power_warning: Some(status), ..self }
    }

    /// Set the advanced options.
    pub fn advanced_options(self, options: AdvancedOrderOptions) -> (r: Self)
        ensures
            r@ == (OrderRequestBuilderView { advanced_options: Some(options), ..self@ }),
    {
        OrderRequestBuilder { advanced_options: Some(options), ..self }
    }

    /// Finish building the [`OrderRequest`].
    ///
    /// NOTE: The account id, the time in force and the order type are required.
    pub fn build(self) -> (r: Result<OrderRequest, Error>)
        ensures
            match order_request_missing(self@) {
                Some(e) => r == Err::<OrderRequest, Error>(e),
                None => r matches Ok(req) && req@ == order_request_from(self@),
            },
            r matches Ok(req) ==> request_keeps_builder_values(self@, req@),
    {
        let account_id = match self.account_id {
            Some(a) => a,
            None => return Err(Error::AccountIdNotSet),
        };
        let time_in_force = match self.time_in_force {
            Some(t) => t,
            None => return Err(Error::TimeInForceNotSet),
        };
        let order_type = match self.order_type {
            Some(o) => o,
            None => return Err(Error::OrderTypeNotSet),
        };
        Ok(OrderRequest {
            account_id,
            advanced_options: self.advanced_options,
            buying_power_warning: self.buying_power_warning,
            legs: self.legs,
            limit_price: self.limit_price,
            osos: self.osos,
            order_confirm_id: self.order_confirm_id,
            order_type,
            quantity: self.quantity,
            route: self.route,
            stop_price: self.stop_price,
            symbol: self.symbol,
            time_in_force,
            trade_action: self.trade_action,
        })
    }
}

/// A group of order requests placed together.
#[derive(Debug)]
pub struct OrderRequestGroup {
    /// The order requests of the group.
    pub order_requests: Vec<OrderRequest>,
    /// How the orders of the group relate.
    pub group_type: OrderRelationship,
}

/// Builder for an [`OrderRequestGroup`].
#[derive(Debug, Default)]
pub struct OrderRequestGroupBuilder {
    order_requests: Option<Vec<OrderRequest>>,
    group_type: Option<OrderRelationship>,
}

/// The plain values of an [`OrderRequestGroupBuilder`].
pub struct OrderRequestGroupBuilderView {
    pub order_requests: Option<Vec<OrderRequest>>,
    pub group_type: Option<OrderRelationship>,
}

impl View for OrderRequestGroupBuilder {
    type V = OrderRequestGroupBuilderView;

    closed spec fn view(&self) -> OrderRequestGroupBuilderView {
        OrderRequestGroupBuilderView { order_requests: self.order_requests, group_type: self.group_type }
    }
}

impl OrderRequestGroupBuilder {
    /// Create a new builder with nothing set.
    pub fn new() -> (r: Self)
        ensures
            r@ == (OrderRequestGroupBuilderView { order_requests: None, group_type: None }),
    {
        OrderRequestGroupBuilder { order_requests: None, group_type: None }
    }

    /// Set the order requests of the group.
    pub fn order_requests(self, order_reqs: Vec<OrderRequest>) -> (r: Self)
        ensures
            r@ == (OrderRequestGroupBuilderView { order_requests: Some(order_reqs), ..self@ }),
    {
        OrderRequestGroupBuilder { order_requests: Some(order_reqs), ..self }
    }

    /// Set how the orders of the group relate.
    pub fn group_type(self, group_type: OrderRelationship) -> (r: Self)
        ensures
            r@ == (OrderRequestGroupBuilderView { group_type: Some(group_type), ..self@ }),
    {
        OrderRequestGroupBuilder { group_type: Some(group_type), ..self }
    }

    /// Finish building the [`OrderRequestGroup`].
    ///
    /// NOTE: The order requests are checked first, then the group type.
    pub fn build(self) -> (r: Result<OrderRequestGroup, Error>)
        ensures
            match (self@.order_requests, self@.group_type) {
                (Some(reqs), Some(t)) => r matches Ok(g) && g.order_requests == reqs && g.group_type == t,
                (None, _) => r matches Err(e) && e is OrderRequestsNotSet,
                (Some(_), None) => r matches Err(e) && e is OrderGroupTypeNotSet,
            },
    {
        let order_requests = match self.order_requests {
            Some(o) => o,
            None => return Err(Error::OrderRequestsNotSet),
        };
        let group_type = match self.group_type {
            Some(t) => t,
            None => return Err(Error::OrderGroupTypeNotSet),
        };
        Ok(OrderRequestGroup { order_requests, group_type })
    }
}

} // verus!
