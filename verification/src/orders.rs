//! Everything about orders in one place: the orders of an account, and the
//! requests, tickets and confirmations of order execution.
pub use crate::accounting::orders::{
    ConditionalOrder, LogicOp, OptionType, Order, OrderAction, OrderLeg, OrderRelationship,
    OrderStage, OrderStatus, OrderType,
};
pub use crate::execution::{
    confirm::OrderConfirmation,
    orders::{
        AdvancedOrderOptions, BPWarningStatus, Duration, OrderRequestLeg, OrderTimeInForce, Oso,
        PegValue, TradeAction,
    },
    request::{OrderRequest, OrderRequestBuilder, OrderRequestGroup, OrderRequestGroupBuilder},
    route::Route,
    ticket::OrderTicket,
    trigger::{ActivationTrigger, ActivationTriggerKey},
    update::OrderUpdate,
};
