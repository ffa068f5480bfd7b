//! The parts of an order request: time in force, legs, advanced options.
use vstd::prelude::*;
use crate::accounting::orders::{MarketActivationRule, OptionType, TimeActivationRule, TrailingStop};
use super::request::OrderRequest;

verus! {

/// Advanced options of an order request.
#[derive(Clone, Debug)]
pub struct AdvancedOrderOptions {
    /// Add liquidity (book only, on ECNs that support it).
    pub add_liquidity: bool,
    /// All or none: fill the whole quantity or nothing.
    pub all_or_none: bool,
    /// Book only: do not route away.
    pub book_only: bool,
    /// A discretionary price.
    pub discretionary_price: String,
    /// Market activation rules.
    pub market_activation_rules: Vec<MarketActivationRule>,
    /// Do not display the order.
    pub non_display: bool,
    /// The peg of the order.
    pub peg_value: PegValue,
    /// The quantity shown to the market.
    pub show_only_quantity: String,
    /// Time activation rules.
    pub time_activation_rules: Vec<TimeActivationRule>,
    /// A trailing stop.
    pub trailing_stop: TrailingStop,
}

/// The peg of an order.
#[derive(Clone, Copy, Debug, PartialEq, Eq)]
pub enum PegValue {
    /// Best bid (buy) or best ask (sell).
    Best,
    /// The midpoint of the spread.
    Mid,
}

/// The trade actions of an order request.
#[derive(Clone, Copy, Debug, PartialEq, Eq)]
pub enum TradeAction {
    /// Buy (equities and futures).
    Buy,
    /// Sell (equities and futures).
    Sell,
    /// Buy to cover (equities).
    BuyToCover,
    /// Sell short (equities).
    SellShort,
    /// Buy to open (options).
    BuyToOpen,
    /// Buy to close (options).
    BuyToClose,
    /// Sell to open (options).
    SellToOpen,
    /// Sell to close (options).
    SellToClose,
}

/// How long an order stays in force.
#[derive(Clone, Debug)]
pub struct OrderTimeInForce {
    /// The duration of the order.
    pub duration: Duration,
    /// The expiration of a good-till-date order.
    pub expiration: Option<String>,
}

/// A leg of an order request.
#[derive(Clone, Debug)]
pub struct OrderRequestLeg {
    /// The symbol of the leg.
    pub symbol: String,
    /// The quantity of the leg.
    pub quantity: String,
    /// The trade action of the leg.
    pub trade_action: TradeAction,
    /// The strike price of an option leg.
    pub strike_price: Option<String>,
    /// The option type of an option leg.
    pub option_type: Option<OptionType>,
    /// The expiration date of an option leg.
    pub expiration_date: Option<String>,
}

/// How a buying power warning is handled.
#[derive(Clone, Copy, Debug, PartialEq, Eq)]
pub enum BPWarningStatus {
    /// Enforce the warning.
    Enforce,
    /// Pre-confirmed.
    Preconfirmed,
    /// Confirmed.
    Confirmed,
}

/// The durations of an order.
#[derive(Clone, Copy, Debug, PartialEq, Eq)]
pub enum Duration {
    /// Day, valid until the end of the regular session.
    DAY,
    /// Day plus, valid until the end of the extended session.
    DYP,
    /// Good till canceled.
    GTC,
    /// Good till canceled plus.
    GCP,
    /// Good through date.
    GTD,
    /// Good through date plus.
    GDP,
    /// At the opening.
    OPG,
    /// On close.
    CLO,
    /// Immediate or cancel.
    IOC,
    /// Fill or kill.
    FOK,
    /// One minute.
    OneMinute,
    /// Three minutes.
    ThreeMinute,
    /// Five minutes.
    FiveMinute,
}

/// Orders sent when an order fills.
#[derive(Debug)]
pub struct Oso {
    /// The orders to send.
    pub orders: Vec<OrderRequest>,
    /// How the orders relate.
    pub oso_type: AdvancedOrderType,
}

/// The types of advanced order.
#[derive(Clone, Copy, Debug, PartialEq, Eq)]
pub enum AdvancedOrderType {
    /// Normal
    Normal,
    /// Bracket
    BRK,
    /// Order cancels order
    OCO,
}

/// The types of order group.
#[derive(Clone, Copy, Debug, PartialEq, Eq)]
pub enum OrderGroupType {
    /// Bracket
    BRK,
    /// Order cancels order
    OCO,
    /// Normal group of orders
    NORMAL,
}

} // verus!
