//! Orders of brokerage accounts, as the API reports them.
use vstd::prelude::*;

verus! {

/// An order of a brokerage account.
#[derive(Clone, Debug)]
pub struct Order {
    /// The id of the account the order belongs to.
    pub account_id: String,
    /// The advanced options of the order.
    pub advanced_options: Option<String>,
    /// When the order was closed.
    pub closed_date_time: Option<String>,
    /// The commission fee charged for the order.
    pub commission_fee: String,
    /// The conditional order related to this one, if any.
    pub conditional_orders: Option<ConditionalOrder>,
    /// The conversion rate used for the order.
    pub conversion_rate: Option<String>,
    /// The currency of the order.
    pub currency: String,
    /// How long the order stays in force.
    pub duration: String,
    /// The price the order was filled at.
    pub filled_price: Option<String>,
    /// The date the order is good until.
    pub good_till_date: Option<String>,
    /// The name of the group the order is in.
    pub group_name: Option<String>,
    /// The legs of the order.
    pub legs: Vec<OrderLeg>,
    /// The market activation rules of the order.
    pub market_activation_rules: Vec<MarketActivationRule>,
    /// The time activation rules of the order.
    pub time_activation_rules: Vec<TimeActivationRule>,
    /// The limit price of the order.
    pub limit_price: Option<String>,
    /// When the order was opened.
    pub opened_date_time: String,
    /// The id of the order.
    pub order_id: String,
    /// The type of the order.
    pub order_type: OrderType,
    /// The price used for buying power calculations.
    pub price_used_for_buying_power: String,
    /// Where the order was routed.
    pub routing: Option<String>,
    /// The quantity shown to the market.
    pub show_only_quantity: Option<String>,
    /// The spread of the order.
    pub spread: Option<String>,
    /// The status of the order.
    pub status: OrderStatus,
    /// A description of the status.
    pub status_description: String,
    /// The stop price of the order.
    pub stop_price: Option<String>,
    /// The trailing stop of the order.
    pub trailing_stop: Option<TrailingStop>,
    /// The unbundled route fee.
    pub unbundled_route_fee: Option<String>,
}

/// The status codes of an order.
#[derive(Clone, Copy, Debug, PartialEq, Eq)]
pub enum OrderStatus {
    /// Received
    ACK,
    /// Option Assignment
    ASS,
    /// Bracket Canceled
    BRC,
    /// Bracket Filled
    BRF,
    /// Broken
    BRO,
    /// Change
    CHG,
    /// Condition Met
    CND,
    /// Fill Corrected
    COR,
    /// Cancel Sent
    CSN,
    /// Dispatched
    DIS,
    /// Dead
    DOA,
    /// Queued
    DON,
    /// Expiration Cancel Request
    ECN,
    /// Option Exercise
    EXE,
    /// Partial Fill (Alive)
    FPR,
    /// Too Late to Cancel
    LAT,
    /// Sent
    OPN,
    /// OSO Order
    OSO,
    /// Order Status Message
    PLA,
    /// Big Brother Recall Request
    REC,
    /// Cancel Request Rejected
    RJC,
    /// Replace Pending
    RPD,
    /// Replace Sent
    RSN,
    /// Stop Hit
    STP,
    /// Order Status Message
    STT,
    /// Suspended
    SUS,
    /// Cancel Sent
    UCN,
    /// Canceled
    CAN,
    /// Expired
    EXP,
    /// UROut
    OUT,
    /// Change Request Rejected
    RJR,
    /// Big Brother Recall
    SCN,
    /// Trade Server Canceled
    TSC,
    /// Replaced
    UCH,
    /// Rejected
    REJ,
    /// Filled
    FLL,
    /// Partial Fill (UROut)
    FLP,
    /// Any other status
    OTHER,
}

/// A trailing stop: an amount or a percent.
#[derive(Clone, Debug)]
pub struct TrailingStop {
    /// Currency offset from the current price.
    pub amount: Option<String>,
    /// Percentage offset from the current price.
    pub percent: Option<String>,
}

/// The types of order.
#[derive(Clone, Copy, Debug, PartialEq, Eq)]
pub enum OrderType {
    /// Limit order
    Limit,
    /// Market order
    Market,
    /// Stop market order
    StopMarket,
    /// Stop limit order
    StopLimit,
}

/// A rule that activates an order at a time.
#[derive(Clone, Debug)]
pub struct TimeActivationRule {
    /// The time, in UTC, at which the order activates.
    pub time_utc: String,
}

/// A rule that activates an order on a market condition.
#[derive(Clone, Debug)]
pub struct MarketActivationRule {
    /// The type of rule.
    pub rule_type: String,
    /// The symbol the rule watches.
    pub symbol: String,
    /// The comparison of the rule.
    pub predicate: Predicate,
    /// The tick trigger of the rule.
    pub tigger_key: TickTrigger,
    /// The price the rule compares against.
    pub price: Option<String>,
    /// How the rule combines with the next rule.
    pub logic_operator: Option<LogicOp>,
}

/// Logic operators between activation rules.
#[derive(Clone, Copy, Debug, PartialEq, Eq)]
pub enum LogicOp {
    /// And
    And,
    /// Or
    Or,
}

/// The tick triggers of activation rules.
#[derive(Clone, Copy, Debug, PartialEq, Eq)]
pub enum TickTrigger {
    /// Single Trade Tick
    STT,
    /// Single Trade Tick Within NBBO
    STTN,
    /// Single Bid/Ask Tick
    SBA,
    /// Single Ask/Bid Tick
    SAB,
    /// Double Trade Tick
    DTT,
    /// Double Trade Tick Within NBBO
    DTTN,
    /// Double Bid/Ask Tick
    DBA,
    /// Double Ask/Bid Tick
    DAB,
    /// Triple Trade Tick
    TTT,
    /// Triple Trade Tick Within NBBO
    TTTN,
    /// Triple Bid/Ask Tick
    TBA,
    /// Triple Ask/Bid Tick
    TAB,
}

/// The comparisons of activation rules.
#[derive(Clone, Copy, Debug, PartialEq, Eq)]
pub enum Predicate {
    /// Less than
    Lt,
    /// Less than or equal
    Lte,
    /// Greater than
    Gt,
    /// Greater than or equal
    Gte,
}

/// A leg of an order.
#[derive(Clone, Debug)]
pub struct OrderLeg {
    /// The asset type of the leg.
    pub asset_type: AssetType,
    /// Whether the leg buys or sells.
    pub buy_or_sell: OrderAction,
    /// The quantity executed.
    pub exec_quantity: String,
    /// The price of the execution.
    pub execution_price: Option<String>,
    /// The expiration date of an option leg.
    pub expiration_date: Option<String>,
    /// Whether the leg opens or closes a position.
    pub open_or_close: Option<OrderStage>,
    /// The option type of an option leg.
    pub option_type: Option<OptionType>,
    /// The quantity ordered.
    pub quantity_ordered: String,
    /// The quantity not yet filled.
    pub quantity_remaining: String,
    /// The strike price of an option leg.
    pub strike_price: Option<String>,
    /// The symbol of the leg.
    pub symbol: String,
    /// The underlying symbol of an option leg.
    pub underlying: Option<String>,
}

/// The types of option.
#[derive(Clone, Copy, Debug, PartialEq, Eq)]
pub enum OptionType {
    /// Call option
    Call,
    /// Put option
    Put,
}

/// Whether an order opens or closes a position.
#[derive(Clone, Copy, Debug, PartialEq, Eq)]
pub enum OrderStage {
    /// Opening
    Open,
    /// Closing
    Close,
}

/// The actions of an order.
#[derive(Clone, Copy, Debug, PartialEq, Eq)]
pub enum OrderAction {
    /// Buy
    Buy,
    /// Sell
    Sell,
    /// Sell short
    SellShort,
    /// Buy to cover
    BuyToCover,
}

/// The asset types.
#[derive(Clone, Copy, Debug, PartialEq, Eq)]
pub enum AssetType {
    /// Unknown
    Unknown,
    /// Stock
    Stock,
    /// Stock option
    StockOption,
    /// Future
    Future,
    /// Future option
    FutureOption,
    /// Forex
    Forex,
    /// Currency option
    CurrencyOption,
    /// Index
    Index,
    /// Index option
    IndexOption,
}

/// An order related to another one.
#[derive(Clone, Debug)]
pub struct ConditionalOrder {
    /// The id of the related order.
    pub order_id: String,
    /// How the orders are related.
    pub relationship: OrderRelationship,
}

/// The relationships between orders.
#[derive(Clone, Copy, Debug, PartialEq, Eq)]
pub enum OrderRelationship {
    /// Bracket
    BRK,
    /// Order sends parent
    OSP,
    /// Order sends order
    OSO,
    /// Order cancels order
    OCO,
}

} // verus!
