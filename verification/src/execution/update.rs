//! Updates of orders that are already placed.
use vstd::prelude::*;
use crate::accounting::orders::OrderType;
use crate::text::opt_view;
use super::orders::AdvancedOrderOptions;

verus! {

/// An update to an existing order already placed and still alive in the market.
#[derive(Clone, Debug, Default)]
pub struct OrderUpdate {
    /// The limit price for this updated order.
    pub limit_price: Option<String>,
    /// The stop price for this updated order.
    pub stop_price: Option<String>,
    /// The order type for this updated order.
    pub order_type: Option<OrderType>,
    /// The quantity for this updated order.
    pub quantity: Option<String>,
    /// The advanced options of this updated order.
    pub advanced_options: Option<AdvancedOrderOptions>,
}

/// The plain values of an [`OrderUpdate`].
pub struct OrderUpdateView {
    pub limit_price: Option<Seq<char>>,
    pub stop_price: Option<Seq<char>>,
    pub order_type: Option<OrderType>,
    pub quantity: Option<Seq<char>>,
    pub advanced_options: Option<AdvancedOrderOptions>,
}

impl View for OrderUpdate {
    type V = OrderUpdateView;

    open spec fn view(&self) -> OrderUpdateView {
        OrderUpdateView {
            limit_price: opt_view(self.limit_price),
            stop_price: opt_view(self.stop_price),
            order_type: self.order_type,
            quantity: opt_view(self.quantity),
            advanced_options: self.advanced_options,
        }
    }
}

impl OrderUpdate {
    /// Create a new update that changes nothing.
    pub fn new() -> (r: Self)
        ensures
            r@ == (OrderUpdateView {
                limit_price: None,
                stop_price: None,
                order_type: None,
                quantity: None,
                advanced_options: None,
            }),
    {
        OrderUpdate {
            limit_price: None,
            stop_price: None,
            order_type: None,
            quantity: None,
            advanced_options: None,
        }
    }

    /// Set the limit price.
    pub fn limit_price(self, price: &str) -> (r: Self)
        ensures
            r@ == (OrderUpdateView { limit_price: Some(price@), ..self@ }),
    {
        OrderUpdate { limit_price: Some(String::from_str(price)), ..self }
    }

    /// Set the stop price.
    pub fn stop_price(self, price: &str) -> (r: Self)
        ensures
            r@ == (OrderUpdateView { stop_price: Some(price@), ..self@ }),
    {
        OrderUpdate { stop_price: Some(String::from_str(price)), ..self }
    }

    /// Set the order type.
    pub fn order_type(self, order_type: OrderType) -> (r: Self)
        ensures
            r@ == (OrderUpdateView { order_type: Some(order_type), ..self@ }),
    {
        OrderUpdate { order_type: Some(order_type), ..self }
    }

    /// Set the quantity.
    pub fn quantity(self, qty: &str) -> (r: Self)
        ensures
            r@ == (OrderUpdateView { quantity: Some(qty@), ..self@ }),
    {
        OrderUpdate { quantity: Some(String::from_str(qty)), ..self }
    }

    /// Set the advanced options.
    pub fn advanced_options(self, opts: AdvancedOrderOptions) -> (r: Self)
        ensures
            r@ == (OrderUpdateView { advanced_options: Some(opts), ..self@ }),
    {
        OrderUpdate { advanced_options: Some(opts), ..self }
    }
}

} // verus!
