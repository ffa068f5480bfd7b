//! Balances of brokerage accounts.
use vstd::prelude::*;
use super::accounts::AccountType;

verus! {

/// The current balance of a brokerage account.
#[derive(Clone, Debug)]
pub struct Balance {
    /// The id of the account.
    pub account_id: String,
    /// The type of the account.
    pub account_type: AccountType,
    /// The cash balance.
    pub cash_balance: String,
    /// The buying power.
    pub buying_power: String,
    /// The equity.
    pub equity: String,
    /// The market value.
    pub market_value: String,
    /// Today's profit and loss.
    pub todays_pnl: String,
    /// Deposits not yet cleared.
    pub uncleared_deposit: String,
    /// The details of the balance.
    pub balance_detail: BalanceDetail,
    /// The commission paid.
    pub commission: String,
}

/// The details of a balance.
#[derive(Clone, Debug)]
pub struct BalanceDetail {
    /// The real time cost for all positions open in the `Account`
    ///
    /// NOTE: Positions are based on the actual entry price
    pub cost_of_positions: Option<String>,
    /// The number of day trades the `Account` has taken over the previous 4 days
    ///
    /// NOTE: This updates daily
    ///
    /// NOTE: This is always None for futures `Account`.
    pub day_trades: Option<String>,
    /// The real time dollar amount of required funds for `Account` margin maintenance
    ///
    /// NOTE: SUM(maintenance margin of all open positions in the account).
    ///
    /// NOTE: This is always None for futures `Account`.
    pub maintenance_rate: Option<String>,
    /// The real time value of intraday buying power for options
    ///
    /// NOTE: This is always None for futures `Account`.
    pub option_buying_power: Option<String>,
    /// The real time Market Value of current open option positions in an `Account`.
    pub options_market_value: Option<String>,
    /// The real time Buying Power value that can be held overnight w/o triggering a margin call.
    ///
    /// NOTE: (Equity - Overnight Requirement %) / 50 %.
    pub overnight_buying_power: Option<String>,
    /// The real time dollar value of open order Day Trade Margins for an `Account`.
    ///
    /// NOTE: SUM(Day Trade Margin of all open orders in the account).
    ///
    /// NOTE: Always `None` for cash & margin accounts
    pub day_trade_open_order_margin: Option<String>,
    /// The real time dollar value of open order Initial Margin for an `Account`.
    ///
    /// NOTE: SUM(Initial Margin of all open orders in the account).
    ///
    /// NOTE: Always `None` for cash & margin accounts.
    pub open_order_margin: Option<String>,
    /// The real time dollar value of Initial Margin for an `Account`.
    ///
    /// NOTE: SUM(Initial Margin of all open positions in the account).
    pub initial_margin: Option<String>,
    /// The real time dollar value of Maintenance Margin for an `Account`.
    ///
    /// NOTE: SUM(Maintenance Margins of all open positions in the account).
    ///
    /// NOTE: Always `None` for cash & margin accounts.
    pub maintenance_margin: Option<String>,
    /// The real time dollar amount of Trade Equity for an `Account`.
    ///
    /// NOTE: Always `None` for cash & margin accounts.
    pub trade_equity: Option<String>,
    /// The value of special securities deposited with the clearing firm
    /// for the sole purpose of increasing purchasing power in `Account`
    ///
    /// NOTE: This number will be reset daily by the account balances clearing file.
    ///
    /// NOTE: The entire value of this field will increase purchasing power.
    ///
    /// NOTE: Always `None` for cash & margin accounts.
    pub security_on_deposit: Option<String>,
    /// The real time dollar value of Today's Trade Equity for an `Account`.
    ///
    /// NOTE: (Beginning Day Trade Equity - Real Time Trade Equity).
    pub today_real_time_trade_equity: Option<String>,
    /// Deeper details on base currency.
    ///
    /// NOTE: Always `None` for cash & margin accounts.
    pub currency_details: Option<CurrencyDetails>,
    /// The real time amount of required funds for `Account` margin maintenance.
    ///
    /// NOTE: The currency denomination is dependant on `Account::currency`.
    ///
    /// NOTE: SUM(maintenance margin of all open positions in the account).
    ///
    /// NOTE: Always `None` for futures accounts.
    pub required_margin: Option<String>,
    /// Funds received by TradeStation that are not settled from a transaction in the `Account`.
    ///
    /// NOTE: Always `None` for futures accounts.
    pub unsettled_funds: Option<String>,
    /// Maintenance Excess.
    ///
    /// NOTE: (Cash Balance + Long Market Value + Short Credit - Maintenance Requirement - Margin Debt - Short Market Value).
    pub day_trade_excess: String,
    /// The net Realized Profit or Loss of an `Account` for the current trading day.
    ///
    /// NOTE: This includes all commissions and routing fees.
    pub realized_pnl: String,
    /// The net Unrealized Profit or Loss of an `Account` for all currently open positions.
    ///
    /// NOTE: This does not include commissions or routing fees.
    pub unrealized_pnl: String,
}

/// The beginning-of-day balance of a brokerage account.
#[derive(Clone, Debug)]
pub struct BODBalance {
    /// The id of the account.
    pub account_id: String,
    /// The type of the account.
    pub account_type: AccountType,
    /// The details of the balance.
    pub balance_detail: BODBalanceDetail,
    /// The balances per currency.
    pub currency_details: Option<Vec<BODCurrencyDetails>>,
}

/// The details of a beginning-of-day balance.
#[derive(Clone, Debug)]
pub struct BODBalanceDetail {
    /// The amount of cash in the account at the beginning of the day.
    ///
    /// NOTE: Only applies to equities.
    pub account_balance: Option<String>,
    /// Beginning of day value for cash available to withdraw
    pub cash_available_to_withdraw: Option<String>,
    /// The number of day trades placed in the account within the previous
    /// 4 trading days.
    ///
    /// NOTE: Only applies to equities.
    pub day_trades: Option<String>,
    /// The Intraday Buying Power with which the account started the trading day.
    ///
    /// NOTE: Only applies to equities.
    pub day_trading_marginable_buying_power: Option<String>,
    /// The total amount of equity with which you started the current trading day.
    pub equity: String,
    /// The amount of cash in the account at the beginning of the day.
    pub net_cash: String,
    /// Unrealized profit and loss at the beginning of the day.
    ///
    /// NOTE: Only applies to futures.
    pub open_trade_equity: Option<String>,
    /// Option buying power at the start of the trading day.
    ///
    /// NOTE: Only applies to equities.
    pub option_buying_power: Option<String>,
    /// Intraday liquidation value of option positions.
    ///
    /// NOTE: Only applies to equities.
    pub option_value: Option<String>,
    /// Overnight Buying Power (Regulation T) at the start of the trading day.
    ///
    /// NOTE: Only applies to equities.
    pub overnight_buying_power: Option<String>,
    /// The value of special securities that are deposited by the customer with
    /// the clearing firm for the sole purpose of increasing purchasing power in
    /// their trading account.
    ///
    /// NOTE: Only applies to futures.
    pub security_on_deposit: Option<String>,
}

/// The beginning-of-day balance in one currency.
#[derive(Clone, Debug)]
pub struct BODCurrencyDetails {
    /// The dollar amount of Beginning Day Margin for the given forex account
    pub account_margin_requirement: Option<String>,
    /// The dollar amount of Beginning Day Trade Equity for the given account
    pub account_open_trade_equity: String,
    /// The value of special securities that are deposited by the customer with
    /// the clearing firm for the sole purpose of increasing purchasing power in
    /// their trading account.
    ///
    /// NOTE: This number will be reset daily by the account balances
    /// clearing file.
    ///
    /// NOTE: The entire value of this field will increase purchasing power
    pub account_securities: String,
    /// The dollar amount of the Beginning Day Cash Balance for the given account
    pub cash_balance: String,
    /// The currency of the entity
    pub currency: String,
    /// The dollar amount of Beginning Day Margin for the given forex account
    pub margin_requirement: Option<String>,
    /// The dollar amount of Beginning Day Trade Equity for the given account
    pub open_trade_equity: String,
    /// Indicates the dollar amount of Beginning Day Securities
    pub securities: String,
}

/// The balance in one currency.
#[derive(Clone, Debug)]
pub struct CurrencyDetails {
    /// Base currency.
    pub currency: String,
    /// The net Unrealized Profit or Loss for all currently open positions.
    ///
    /// NOTE: This does not include commissions or routing fees.
    pub commission: String,
    /// The real time value of an `Account`(s) Cash Balance.
    pub cash_balance: String,
    /// The net Realized Profit or Loss of an `Account` for the current trading day.
    ///
    /// NOTE: This includes all commissions and routing fees.
    pub realized_pnl: String,
    /// The net Unrealized Profit or Loss of an `Account` for all currently open positions.
    ///
    /// NOTE: This does not include commissions or routing fees.
    pub unrealized_pnl: String,
    /// The real time dollar value of Initial Margin for an `Account`.
    ///
    /// NOTE: SUM(Initial Margin of all open positions in the account).
    pub initial_margin: String,
    /// The real time dollar value of Maintenance Margin for an `Account`.
    ///
    /// NOTE: SUM(Maintenance Margins of all open positions in the account).
    pub maintenance_margin: String,
    /// The real time conversion rate used to convert value from symbol currency to `Account` currency.
    pub account_conversion_rate: String,
}

} // verus!
