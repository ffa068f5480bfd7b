//! Order execution: building, confirming, placing, replacing and canceling orders.

/// Confirmations (previews) of orders.
pub mod confirm;
/// The parts of an order request.
pub mod orders;
/// Order requests, order groups and their builders.
pub mod request;
/// Execution routes.
pub mod route;
/// Tickets of placed orders.
pub mod ticket;
/// Activation triggers.
pub mod trigger;
/// Updates of placed orders.
pub mod update;

pub use confirm::OrderConfirmation;
pub use orders::{
    AdvancedOrderOptions, AdvancedOrderType, BPWarningStatus, Duration, OrderGroupType, OrderRequestLeg,
    OrderTimeInForce, Oso, PegValue, TradeAction,
};
pub use request::{OrderRequest, OrderRequestBuilder, OrderRequestGroup, OrderRequestGroupBuilder};
pub use route::Route;
pub use ticket::OrderTicket;
pub use trigger::{ActivationTrigger, ActivationTriggerKey};
pub use update::OrderUpdate;
