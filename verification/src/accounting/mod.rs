//! Accounting: brokerage accounts, their balances, orders and positions.

/// Types and functionality for working with brokerage accounts.
pub mod accounts;

/// Types and functionality for working with account balances.
pub mod balances;

/// Types and functionality for working with account orders.
pub mod orders;

/// Types and functionality for working with account positions.
pub mod positions;

pub use accounts::{Account, AccountDetail, AccountResource, AccountStream, AccountType, MultipleAccounts, OptionApprovalLevel};
pub use balances::{BODBalance, BODBalanceDetail, BODCurrencyDetails, Balance, BalanceDetail, CurrencyDetails};
pub use orders::{
    AssetType, ConditionalOrder, LogicOp, MarketActivationRule, OptionType, Order, OrderAction, OrderLeg,
    OrderRelationship, OrderStage, OrderStatus, OrderType, Predicate, TickTrigger, TimeActivationRule,
    TrailingStop,
};
pub use positions::{Position, PositionType};
