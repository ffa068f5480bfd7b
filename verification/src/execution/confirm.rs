//! Confirmations (previews) of orders.
use vstd::prelude::*;
use crate::accounting::orders::{AssetType, TrailingStop};
use crate::market_data::options::OptionSpreadType;
use super::orders::{OrderRequestLeg, OrderTimeInForce, PegValue};

verus! {

/// The confirmation (preview) of an order: its estimated cost and commission.
#[derive(Clone, Debug)]
pub struct OrderConfirmation {
    /// The route of the order.
    ///
    /// NOTE: For Stocks and Options, Route value will
    /// default to Intelligent if no value is set.
    pub route: String,
    /// Defines the duration or expiration timestamp of an Order.
    pub time_in_force: OrderTimeInForce,
    /// The ID of the Account the order belongs to.
    pub account_id: String,
    /// A short text summary / description of the order.
    pub summary_message: String,
    /// The asset category for the asset an order is for.
    pub order_asset_category: AssetType,
    /// The ID of the order confirm.
    pub order_confirm_id: String,
    /// The limit price of the order.
    ///
    /// NOTE: Only valid for orders with `OrderType::Limit`.
    pub limit_price: Option<String>,
    /// When you send a non-display order, it will not be
    /// reflected in either the market depth display or ECN books.
    ///
    /// NOTE: Only valid for equities.
    pub non_display: Option<bool>,
    /// This order type is useful to achieve a
    /// fair price in a fast or volatile market.
    ///
    /// NOTE: Only valid for equities.
    pub peg_value: Option<PegValue>,
    /// Hides the true number of shares intended to be bought or sold.
    ///
    /// NOTE: Only valid for orders with `OrderType::Limit` and
    /// `OrderType::StopLimit`.
    ///
    /// NOTE: Not valid for all exchanges.
    pub show_only_quantity: Option<i64>,
    /// The option spread type.
    ///
    /// NOTE: Only valid for options.
    pub spread: Option<OptionSpreadType>,
    /// The stop price for open orders.
    pub stop_price: Option<String>,
    /// The trailing stop offset for an order.
    pub trailing_stop: Option<TrailingStop>,
    /// The order legs related to the overall order.
    pub legs: Option<Vec<OrderRequestLeg>>,
    /// The underlying symbol name the order is for.
    pub underlying: Option<String>,
    /// The estimated price of the order.
    pub estimated_price: String,
    /// The estimated display price of the order.
    pub estimated_price_display: Option<String>,
    /// The estimated cost of the order.
    pub estimated_cost: String,
    /// The estimated display cost of the order.
    pub estimated_cost_display: Option<String>,
    /// The estimated commission cost for the order.
    pub estimated_commission: String,
    /// The estimated commission cost display for the order.
    pub estimated_commission_display: Option<String>,
    /// The estimated debit or credit cost of the the order.
    ///
    /// NOTE: Debit costs will have a positive cost, and credit
    /// costs will have a negative cost.
    pub debit_credit_estimated_cost: Option<String>,
    /// The estimated debit or credit display cost of the the order.
    ///
    /// NOTE: Debit costs will have a positive cost, and credit
    /// costs will have a negative cost.
    pub debit_credit_estimated_cost_display: Option<String>,
    /// The descretionary price of the order, which can be used to
    /// reflect a Bid/Ask at a lower/higher price than you are willing
    /// to pay using a specified price increment.
    ///
    /// NOTE: Only valid for `OrderType::Limit` & `OrderType::StopLimit`.
    ///
    /// NOTE: Only valid for equities.
    pub descretionary_price: Option<String>,
    /// Is the order using book only option, which restricts the destination
    /// you choose in the direct routing from re-routing your order to another
    /// destination.
    ///
    /// This type of order is useful in controlling your execution costs by
    /// avoiding fees the exchanges can charge for re-routing your order to
    /// another market center.
    ///
    /// NOTE: Only valid for equities.
    pub book_only: Option<bool>,
    /// Is the order using the all or none option, which avoids partial fills
    /// on your order. Your order will either be filled in full or not at all
    /// when using this option.
    ///
    /// NOTE: Only valid for equities and options.
    pub all_or_none: Option<bool>,
    /// Is the order using the add liquidity option, which allows you to place
    /// orders that will only add liquidity on the route you selected.
    ///
    /// NOTE: Only valid if you're also using the `book_only` option on the order.
    ///
    /// NOTE: Only valid for equities.
    pub add_liquidity: Option<bool>,
    /// The currency the product is based on.
    ///
    /// NOTE: Only valid for futures orders.
    pub product_currency: Option<String>,
    /// The currency the account is based on.
    ///
    /// NOTE: Only valid for futures orders.
    pub account_currency: Option<String>,
    /// The initial margin display cost of the order.
    ///
    /// NOTE: Only valid for futures orders.
    pub initial_margin_display: Option<String>,
}

/// The asset categories an order can fall into.
#[derive(Clone, Copy, Debug, PartialEq, Eq)]
pub enum OrderAssetCategory {
    /// Orders for Stocks, ETFs, ETNs, etc.
    Equity,
    /// Orders for Options on Stocks, ETFs, ETNs, etc.
    Option,
    /// Orders for Future Contracts
    Future,
}

} // verus!
