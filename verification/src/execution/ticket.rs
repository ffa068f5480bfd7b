//! Tickets of placed orders, and the endpoints that place, replace and cancel orders.
use vstd::prelude::*;
use crate::accounting::orders::Order;
use crate::text::concat_text;
use super::request::{OrderRequest, OrderRequestGroup};

verus! {

/// The ticket of an order the API accepted.
#[derive(Clone, Debug)]
pub struct OrderTicket {
    /// Short text summary / description of the order.
    pub message: String,
    /// The id of the order.
    pub order_id: String,
    /// The error for the order.
    pub error: Option<String>,
}

/// The endpoint of one placed order, through which it is replaced or canceled.
pub open spec fn order_endpoint(order_id: Seq<char>) -> Seq<char> {
    "orderexecution/orders/"@ + order_id
}

impl OrderTicket {
    /// A ticket for the order with the given id, with an empty message and no error.
    ///
    /// NOTE: The ticket is only useful if the order id is valid.
    pub fn from_id(order_id: &str) -> (r: OrderTicket)
        ensures
            r.message@ == Seq::<char>::empty(),
            r.order_id@ == order_id@,
            r.error is None,
    {
        OrderTicket { message: String::new(), order_id: String::from_str(order_id), error: None }
    }

    /// The endpoint through which this order is replaced or canceled.
    pub fn endpoint(&self) -> (r: String)
        ensures
            r@ == order_endpoint(self.order_id@),
    {
        concat_text("orderexecution/orders/", self.order_id.as_str())
    }
}

impl Order {
    /// The endpoint through which this order is replaced or canceled.
    pub fn execution_endpoint(&self) -> (r: String)
        ensures
            r@ == order_endpoint(self.order_id@),
    {
        concat_text("orderexecution/orders/", self.order_id.as_str())
    }
}

impl OrderRequest {
    /// The endpoint that places a single order.
    pub fn place_endpoint() -> (r: &'static str)
        ensures
            r@ == "orderexecution/orders"@,
    {
        "orderexecution/orders"
    }

    /// The endpoint that confirms (previews) a single order.
    pub fn confirm_endpoint() -> (r: &'static str)
        ensures
            r@ == "orderexecution/orderconfirm"@,
    {
        "orderexecution/orderconfirm"
    }
}

impl OrderRequestGroup {
    /// The endpoint that places a group of orders.
    pub fn place_endpoint() -> (r: &'static str)
        ensures
            r@ == "orderexecution/ordergroups"@,
    {
        "orderexecution/ordergroups"
    }

    /// The endpoint that confirms (previews) a group of orders.
    pub fn confirm_endpoint() -> (r: &'static str)
        ensures
            r@ == "orderexecution/ordergroupconfirm"@,
    {
        "orderexecution/ordergroupconfirm"
    }
}

} // verus!
