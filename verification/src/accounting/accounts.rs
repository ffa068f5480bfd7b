//! Brokerage accounts, how one is found among many, and the endpoints that
//! read the resources of one or more accounts.
use vstd::prelude::*;
use crate::error::Error;
use crate::text::{
    decimal, has_infix, has_suffix, join, lemma_infix_extend, lemma_infix_prepend, lemma_join_has_part,
    lemma_suffix_of_concat, push_decimal, push_joined, string_views,
};

verus! {

/// A brokerage account.
#[derive(Clone, Debug)]
pub struct Account {
    /// The id of the account.
    pub account_id: String,
    /// The currency of the account.
    pub currency: String,
    /// The type of the account.
    pub account_type: AccountType,
    /// The details of the account (not given for every account type).
    pub account_detail: Option<AccountDetail>,
}

/// The details of a brokerage account.
#[derive(Clone, Copy, Debug, PartialEq, Eq)]
pub struct AccountDetail {
    /// Can account locate securities for borrowing?
    ///
    /// For example if you want to short a stock, you need
    /// to "locate" shares to borrow and sell.
    pub is_stock_locate_eligible: bool,
    /// Is account enrolled with Regulation T ?
    ///
    /// Regulation T governs cash accounts and the amount of credit that
    /// broker-dealers can extend to investors for the purchase of securities.
    pub enrolled_in_reg_t_program: bool,
    /// Does the account require a buying power warning before order execution?
    ///
    /// TradeStation uses the greater of Overnight Buying Power or Day Trade
    /// Buying Power to determine if an order should be accepted or rejected.
    ///
    /// In cases where an order exceeds both values, the order will be rejected.
    /// If the order exceeds only one of the values, a Buying Power Warning will
    /// appear to notify you that the order could result in a margin call.
    pub requires_buying_power_warning: bool,
    /// Is the `Account` qualified for day trading?
    ///
    /// An `Account` MUST maintain a minimum equity balance of $25,000
    /// to be qualified for day trades. *(As per TradeStation compliance rules)*
    pub day_trading_qualified: bool,
    /// What options level is the `Account` approved for?
    ///
    /// The option approval level will determine what options strategies you will
    /// be able to employ on `Account`. In general terms, the levels are defined as:
    /// Level 0: No options trading allowed.
    /// Level 1: Writing of Covered Calls, Buying Protective Puts.
    /// Level 2: Level 1 + Buying Calls, Buying Puts, Writing Covered Puts.
    /// Level 3: Level 2 + Stock Option Spreads, Index Option Spreads, Butterfly Spreads, Condor Spreads, Iron Butterfly Spreads, Iron Condor Spreads.
    /// Level 4: Level 3 + Writing of Naked Puts (Stock Options).
    /// Level 5: Level 4 + Writing of Naked Puts (Index Options), Writing of Naked Calls (Stock Options), Writing of Naked Calls (Index Options).
    ///
    /// These levels vary depending on the funding and type of account.
    pub option_approval_level: OptionApprovalLevel,
    /// Is the `Account` a Pattern Day Trader?
    ///
    /// As per FINRA rules, an `Account` will be considered a pattern day trader
    /// if it day-trades 4 or more times in 5 business days and it's day-trading
    /// activities are greater than 6 percent of it's total trading activity for
    /// that same five-day period.
    ///
    /// A pattern day trader must maintain minimum equity of $25,000 on any day
    /// that the customer day trades. If the account falls below the $25,000
    /// requirement, the pattern day trader will not be permitted to day trade
    /// until the account is restored to the $25,000 minimum equity level.
    pub pattern_day_trader: bool,
    /// Is the `Account` enabled to trade crypto?
    ///
    /// NOTE: As of 2024 TradeStation no longer offer's crypto trading.
    pub crypto_enabled: bool,
}

/// The types of brokerage account.
#[derive(Clone, Copy, Debug, PartialEq, Eq)]
pub enum AccountType {
    /// Cash account
    Cash,
    /// Margin account
    Margin,
    /// Futures account
    Futures,
    /// Delivery versus payment account
    DVP,
}

/// The option approval levels of an account, from zero to five.
#[derive(Clone, Copy, Debug, PartialEq, Eq)]
pub enum OptionApprovalLevel {
    /// Options Approval Level 0: No options trading allowed.
    Zero,
    /// Options Approval Level 1: Writing of Covered Calls, Buying Protective Puts.
    One,
    /// Options Approval Level 2: Level 1 + Buying Calls, Buying Puts, Writing Covered Puts.
    Two,
    /// Options Approval Level 3: Level 2 + Stock Option Spreads, Index Option Spreads,
    /// Butterfly Spreads, Condor Spreads, Iron Butterfly Spreads, Iron Condor Spreads.
    Three,
    /// Options Approval Level 4: Level 3 + Writing of Naked Puts (Stock Options).
    Four,
    /// Options Approval Level 5: Level 4 + Writing of Naked Puts (Index Options),
    /// Writing of Naked Calls (Stock Options), Writing of Naked Calls (Index Options).
    Five,
}

/// The number of an option approval level.
pub open spec fn approval_level_number(level: OptionApprovalLevel) -> u8 {
    match level {
        OptionApprovalLevel::Zero => 0u8,
        OptionApprovalLevel::One => 1u8,
        OptionApprovalLevel::Two => 2u8,
        OptionApprovalLevel::Three => 3u8,
        OptionApprovalLevel::Four => 4u8,
        OptionApprovalLevel::Five => 5u8,
    }
}

/// The option approval level with a number, if there is one.
pub open spec fn approval_level_from_number(value: u8) -> Option<OptionApprovalLevel> {
    if value == 0 {
        Some(OptionApprovalLevel::Zero)
    } else if value == 1 {
        Some(OptionApprovalLevel::One)
    } else if value == 2 {
        Some(OptionApprovalLevel::Two)
    } else if value == 3 {
        Some(OptionApprovalLevel::Three)
    } else if value == 4 {
        Some(OptionApprovalLevel::Four)
    } else if value == 5 {
        Some(OptionApprovalLevel::Five)
    } else {
        None
    }
}

impl OptionApprovalLevel {
    /// The level with the number `value`; the error text for any other number.
    pub fn from_level(value: u8) -> (r: Result<OptionApprovalLevel, String>)
        ensures
            match approval_level_from_number(value) {
                Some(level) => r == Ok::<OptionApprovalLevel, String>(level),
                None => r matches Err(m) && m@ == "Invalid OptionApprovalLevel: "@ + decimal(value as nat),
            },
    {
        match value {
            0 => Ok(OptionApprovalLevel::Zero),
            1 => Ok(OptionApprovalLevel::One),
            2 => Ok(OptionApprovalLevel::Two),
            3 => Ok(OptionApprovalLevel::Three),
            4 => Ok(OptionApprovalLevel::Four),
            5 => Ok(OptionApprovalLevel::Five),
            _ => {
                let mut msg = String::from_str("Invalid OptionApprovalLevel: ");
                push_decimal(&mut msg, value as u64);
                Err(msg)
            },
        }
    }

    /// The number of the level.
    pub fn level(&self) -> (r: u8)
        ensures
            r == approval_level_number(*self),
    {
        match self {
            OptionApprovalLevel::Zero => 0,
            OptionApprovalLevel::One => 1,
            OptionApprovalLevel::Two => 2,
            OptionApprovalLevel::Three => 3,
            OptionApprovalLevel::Four => 4,
            OptionApprovalLevel::Five => 5,
        }
    }
}

/// Converting a level to its number and back gives the level.
pub proof fn law_approval_level_round_trip(level: OptionApprovalLevel)
    ensures
        approval_level_from_number(approval_level_number(level)) == Some(level),
{
}

/// Exactly the numbers zero to five are option approval levels, and each
/// such number is the number of the level it names.
pub proof fn law_approval_level_numbers(value: u8)
    ensures
        approval_level_from_number(value) is Some <==> value <= 5,
        approval_level_from_number(value) matches Some(level) ==> approval_level_number(level) == value,
{
}

/// Whether the account has the id `id`.
pub open spec fn has_id(a: Account, id: Seq<char>) -> bool {
    a.account_id@ == id
}

impl Account {
    /// A copy of the account.
    pub fn duplicate(&self) -> (r: Account)
        ensures
            r == *self,
    {
        Account {
            account_id: self.account_id.clone(),
            currency: self.currency.clone(),
            account_type: self.account_type,
            account_detail: self.account_detail,
        }
    }

    /// The first account of `accounts` with the id `account_id`, or
    /// `AccountNotFound` when no account has it.
    pub fn select_by_id(accounts: Vec<Account>, account_id: &str) -> (r: Result<Account, Error>)
        ensures
            match first_index_with_id(accounts@, account_id@) {
                Some(i) => r matches Ok(a) && a == accounts@[i],
                None => r matches Err(e) && e is AccountNotFound,
            },
    {
        let ghost all = accounts@;
        let mut list = accounts;
        let mut i: usize = 0;
        assert(all.skip(0) =~= all);
        assert(shift_index(first_index_with_id(all, account_id@), 0) == first_index_with_id(all, account_id@));
        while i < list.len()
            invariant
                i <= list.len(),
                list@ == all,
                all == accounts@,
                first_index_with_id(all, account_id@) == shift_index(first_index_with_id(all.skip(i as int), account_id@), i as int),
            decreases list.len() - i,
        {
            proof {
                assert(all.skip(i as int).first() == all[i as int]);
                assert(all.skip(i as int).drop_first() =~= all.skip(i as int + 1));
            }
            if crate::text::str_is(list[i].account_id.as_str(), account_id) {
                let found = list.swap_remove(i);
                assert(found == all[i as int]);
                assert(first_index_with_id(all.skip(i as int), account_id@) == Some(0int));
                return Ok(found);
            }
            i = i + 1;
        }
        proof {
            assert(all.skip(i as int) =~= Seq::<Account>::empty());
        }
        Err(Error::AccountNotFound)
    }

    /// The ids of a list of accounts, in order.
    pub fn ids(accounts: &Vec<Account>) -> (r: Vec<String>)
        ensures
            string_views(r@) == account_id_views(accounts@),
    {
        let mut out: Vec<String> = Vec::new();
        let mut i: usize = 0;
        while i < accounts.len()
            invariant
                i <= accounts.len(),
                string_views(out@) == account_id_views(accounts@.take(i as int)),
            decreases accounts.len() - i,
        {
            let ghost before = out@;
            out.push(accounts[i].account_id.clone());
            proof {
                assert(accounts@.take(i as int + 1) =~= accounts@.take(i as int).push(accounts@[i as int]));
                assert(string_views(out@) =~= string_views(before).push(accounts@[i as int].account_id@));
                assert(account_id_views(accounts@.take(i as int + 1)) =~= account_id_views(accounts@.take(i as int)).push(accounts@[i as int].account_id@));
            }
            i = i + 1;
        }
        assert(accounts@.take(accounts@.len() as int) =~= accounts@);
        out
    }
}

/// The ids of a list of accounts.
pub open spec fn account_id_views(accounts: Seq<Account>) -> Seq<Seq<char>> {
    accounts.map_values(|a: Account| a.account_id@)
}

/// An optional index moved forward by `d`.
pub open spec fn shift_index(o: Option<int>, d: int) -> Option<int> {
    match o {
        Some(k) => Some(k + d),
        None => None,
    }
}

/// The index of the first account of `accounts` with the id `id`, if any.
pub open spec fn first_index_with_id(accounts: Seq<Account>, id: Seq<char>) -> Option<int>
    decreases accounts.len(),
{
    if accounts.len() == 0 {
        None
    } else if has_id(accounts.first(), id) {
        Some(0)
    } else {
        match first_index_with_id(accounts.drop_first(), id) {
            Some(k) => Some(k + 1),
            None => None,
        }
    }
}

/// The index of the last account of `accounts` with the id `id`, if any.
pub open spec fn last_index_with_id(accounts: Seq<Account>, id: Seq<char>) -> Option<int>
    decreases accounts.len(),
{
    if accounts.len() == 0 {
        None
    } else if has_id(accounts.last(), id) {
        Some(accounts.len() - 1)
    } else {
        last_index_with_id(accounts.drop_last(), id)
    }
}

/// What `first_index_with_id` finds: the smallest index of an account with
/// the id, or nothing when no account has it.
proof fn lemma_first_index_with_id(accounts: Seq<Account>, id: Seq<char>)
    ensures
        match first_index_with_id(accounts, id) {
            Some(i) => 0 <= i < accounts.len() && has_id(accounts[i], id)
                && forall|j: int| 0 <= j < i ==> !has_id(#[trigger] accounts[j], id),
            None => forall|j: int| 0 <= j < accounts.len() ==> !has_id(#[trigger] accounts[j], id),
        },
    decreases accounts.len(),
{
    if accounts.len() > 0 && !has_id(accounts.first(), id) {
        let rest = accounts.drop_first();
        lemma_first_index_with_id(rest, id);
        assert forall|j: int| 1 <= j < accounts.len() implies accounts[j] == rest[j - 1] by {}
    }
}

/// What `last_index_with_id` finds: the largest index of an account with
/// the id, or nothing when no account has it.
proof fn lemma_last_index_with_id(accounts: Seq<Account>, id: Seq<char>)
    ensures
        match last_index_with_id(accounts, id) {
            Some(k) => 0 <= k < accounts.len() && has_id(accounts[k], id)
                && forall|j: int| k < j < accounts.len() ==> !has_id(#[trigger] accounts[j], id),
            None => forall|j: int| 0 <= j < accounts.len() ==> !has_id(#[trigger] accounts[j], id),
        },
    decreases accounts.len(),
{
    if accounts.len() > 0 && !has_id(accounts.last(), id) {
        let rest = accounts.drop_last();
        lemma_last_index_with_id(rest, id);
        assert forall|j: int| 0 <= j < accounts.len() - 1 implies accounts[j] == rest[j] by {}
    }
}

/// Looking an account up by id from the front (`select_by_id`) and from the
/// back (`find_by_id`) agree on whether an account has the id; the first
/// finds the first such account, the second the last one, and every account
/// before the first or after the last has another id.
pub proof fn law_account_lookups_agree(accounts: Seq<Account>, id: Seq<char>)
    ensures
        first_index_with_id(accounts, id) is Some <==> last_index_with_id(accounts, id) is Some,
        first_index_with_id(accounts, id) is Some <==> exists|j: int|
            0 <= j < accounts.len() && has_id(#[trigger] accounts[j], id),
        first_index_with_id(accounts, id) matches Some(i) ==> has_id(accounts[i], id)
            && forall|j: int| 0 <= j < i ==> !has_id(#[trigger] accounts[j], id),
        last_index_with_id(accounts, id) matches Some(k) ==> has_id(accounts[k], id)
            && forall|j: int| k < j < accounts.len() ==> !has_id(#[trigger] accounts[j], id),
        first_index_with_id(accounts, id) matches Some(i) ==> last_index_with_id(accounts, id) matches Some(k)
            && i <= k,
{
    lemma_first_index_with_id(accounts, id);
    lemma_last_index_with_id(accounts, id);
}

/// Lookups over a list of accounts.
pub trait MultipleAccounts {
    /// Find the account with the given id (the last one when several have it).
    fn find_by_id(&self, id: &str) -> Option<Account>;
}

impl MultipleAccounts for Vec<Account> {
    fn find_by_id(&self, id: &str) -> (r: Option<Account>)
        ensures
            match last_index_with_id(self@, id@) {
                Some(i) => r == Some(self@[i]),
                None => r is None,
            },
    {
        let mut i: usize = self.len();
        assert(self@.take(self@.len() as int) =~= self@);
        while i > 0
            invariant
                i <= self.len(),
                last_index_with_id(self@, id@) == last_index_with_id(self@.take(i as int), id@),
            decreases i,
        {
            let ghost prefix = self@.take(i as int);
            assert(prefix.last() == self@[i - 1]);
            if crate::text::str_is(self[i - 1].account_id.as_str(), id) {
                return Some(self[i - 1].duplicate());
            }
            assert(prefix.drop_last() =~= self@.take(i - 1));
            i = i - 1;
        }
        assert(self@.take(0) =~= Seq::<Account>::empty());
        None
    }
}

/// The resources of accounts that the API serves.
#[derive(Clone, Debug)]
pub enum AccountResource {
    /// The current balances.
    Balances,
    /// The beginning-of-day balances.
    BODBalances,
    /// Today's orders and the open orders.
    Orders,
    /// Today's orders and the open orders with the given ids.
    OrdersById(Vec<String>),
    /// The historical orders since a date (`YYYY-MM-DD`).
    HistoricalOrders(String),
    /// The positions.
    Positions,
    /// The positions in the given symbols (comma separated).
    PositionsInSymbols(String),
}

/// The path that follows the account ids for a resource.
pub open spec fn account_resource_suffix(r: AccountResource) -> Seq<char> {
    match r {
        AccountResource::Balances => "/balances"@,
        AccountResource::BODBalances => "/bodbalances"@,
        AccountResource::Orders => "/orders"@,
        AccountResource::OrdersById(ids) => "/orders/"@ + join(string_views(ids@), ","@),
        AccountResource::HistoricalOrders(since) => "/historicalorders?since="@ + since@,
        AccountResource::Positions => "/positions"@,
        AccountResource::PositionsInSymbols(symbols) => "/positions?symbol="@ + symbols@,
    }
}

/// The endpoint that reads a resource of the given accounts.
pub open spec fn account_resource_endpoint(account_ids: Seq<Seq<char>>, r: AccountResource) -> Seq<char> {
    "brokerage/accounts/"@ + join(account_ids, ","@) + account_resource_suffix(r)
}

/// The streams of accounts that the API serves.
#[derive(Clone, Debug)]
pub enum AccountStream {
    /// Order events.
    Orders,
    /// Order events of the orders with the given ids.
    OrdersById(Vec<String>),
    /// Position events.
    Positions,
}

/// The path that follows the account ids for a stream.
pub open spec fn account_stream_suffix(s: AccountStream) -> Seq<char> {
    match s {
        AccountStream::Orders => "/orders"@,
        AccountStream::OrdersById(ids) => "/orders/"@ + join(string_views(ids@), ","@),
        AccountStream::Positions => "/positions"@,
    }
}

/// The endpoint that streams events of the given accounts.
pub open spec fn account_stream_endpoint(account_ids: Seq<Seq<char>>, s: AccountStream) -> Seq<char> {
    "brokerage/stream/accounts/"@ + join(account_ids, ","@) + account_stream_suffix(s)
}

/// The endpoint that lists the accounts of the user.
pub open spec fn accounts_list_endpoint() -> Seq<char> {
    "brokerage/accounts"@
}

fn push_resource_suffix(out: &mut String, resource: &AccountResource)
    ensures
        final(out)@ == old(out)@ + account_resource_suffix(*resource),
{
    match resource {
        AccountResource::Balances => out.append("/balances"),
        AccountResource::BODBalances => out.append("/bodbalances"),
        AccountResource::Orders => out.append("/orders"),
        AccountResource::OrdersById(ids) => {
            let ghost start = out@;
            out.append("/orders/");
            push_joined(out, ids, ",");
            assert(out@ =~= start + ("/orders/"@ + join(string_views(ids@), ","@)));
        },
        AccountResource::HistoricalOrders(since) => {
            let ghost start = out@;
            out.append("/historicalorders?since=");
            out.append(since.as_str());
            assert(out@ =~= start + ("/historicalorders?since="@ + since@));
        },
        AccountResource::Positions => out.append("/positions"),
        AccountResource::PositionsInSymbols(symbols) => {
            let ghost start = out@;
            out.append("/positions?symbol=");
            out.append(symbols.as_str());
            assert(out@ =~= start + ("/positions?symbol="@ + symbols@));
        },
    }
}

impl AccountResource {
    /// The endpoint that reads this resource of the accounts with the given ids.
    pub fn endpoint(&self, account_ids: &Vec<String>) -> (r: String)
        ensures
            r@ == account_resource_endpoint(string_views(account_ids@), *self),
    {
        let mut out = String::from_str("brokerage/accounts/");
        push_joined(&mut out, account_ids, ",");
        push_resource_suffix(&mut out, self);
        out
    }
}

impl AccountStream {
    /// The endpoint that streams these events of the accounts with the given ids.
    pub fn endpoint(&self, account_ids: &Vec<String>) -> (r: String)
        ensures
            r@ == account_stream_endpoint(string_views(account_ids@), *self),
    {
        let mut out = String::from_str("brokerage/stream/accounts/");
        push_joined(&mut out, account_ids, ",");
        let ghost mid = out@;
        match self {
            AccountStream::Orders => out.append("/orders"),
            AccountStream::OrdersById(ids) => {
                out.append("/orders/");
                push_joined(&mut out, ids, ",");
                assert(out@ =~= mid + ("/orders/"@ + join(string_views(ids@), ","@)));
            },
            AccountStream::Positions => out.append("/positions"),
        }
        out
    }
}

impl Account {
    /// The endpoint that lists the accounts of the user.
    pub fn list_endpoint() -> (r: &'static str)
        ensures
            r@ == accounts_list_endpoint(),
    {
        "brokerage/accounts"
    }

    /// The endpoint that reads a resource of this account.
    pub fn resource_endpoint(&self, resource: &AccountResource) -> (r: String)
        ensures
            r@ == account_resource_endpoint(seq![self.account_id@], *resource),
    {
        let mut ids: Vec<String> = Vec::new();
        ids.push(self.account_id.clone());
        assert(string_views(ids@) =~= seq![self.account_id@]);
        resource.endpoint(&ids)
    }

    /// The endpoint that streams events of this account.
    pub fn stream_endpoint(&self, stream: &AccountStream) -> (r: String)
        ensures
            r@ == account_stream_endpoint(seq![self.account_id@], *stream),
    {
        let mut ids: Vec<String> = Vec::new();
        ids.push(self.account_id.clone());
        assert(string_views(ids@) =~= seq![self.account_id@]);
        stream.endpoint(&ids)
    }
}

} // verus!

verus! {

/// The endpoint of a resource of some accounts names each of the accounts
/// and ends with the resource asked for: its path, and the order ids, the
/// date or the symbols it carries.
pub proof fn law_account_endpoint_names_accounts_and_resource(ids: Seq<Seq<char>>, i: int, r: AccountResource)
    ensures
        0 <= i < ids.len() ==> has_infix(account_resource_endpoint(ids, r), ids[i]),
        r is Balances ==> has_suffix(account_resource_endpoint(ids, r), "/balances"@),
        r is BODBalances ==> has_suffix(account_resource_endpoint(ids, r), "/bodbalances"@),
        r is Orders ==> has_suffix(account_resource_endpoint(ids, r), "/orders"@),
        r matches AccountResource::OrdersById(o) ==> has_suffix(
            account_resource_endpoint(ids, r),
            "/orders/"@ + join(string_views(o@), ","@),
        ),
        r matches AccountResource::HistoricalOrders(since) ==> has_suffix(
            account_resource_endpoint(ids, r),
            "/historicalorders?since="@ + since@,
        ),
        r is Positions ==> has_suffix(account_resource_endpoint(ids, r), "/positions"@),
        r matches AccountResource::PositionsInSymbols(symbols) ==> has_suffix(
            account_resource_endpoint(ids, r),
            "/positions?symbol="@ + symbols@,
        ),
{
    let head = "brokerage/accounts/"@ + join(ids, ","@);
    let ep = account_resource_endpoint(ids, r);
    assert(ep == head + account_resource_suffix(r));
    lemma_suffix_of_concat(head, account_resource_suffix(r));
    if 0 <= i < ids.len() {
        lemma_join_has_part(ids, ","@, i);
        lemma_infix_prepend("brokerage/accounts/"@, join(ids, ","@), ids[i]);
        lemma_infix_extend(head, account_resource_suffix(r), ids[i]);
    }
}

/// The endpoint of a stream of some accounts names each of the accounts and
/// ends with the stream asked for.
pub proof fn law_account_stream_names_accounts_and_stream(ids: Seq<Seq<char>>, i: int, st: AccountStream)
    ensures
        0 <= i < ids.len() ==> has_infix(account_stream_endpoint(ids, st), ids[i]),
        st is Orders ==> has_suffix(account_stream_endpoint(ids, st), "/orders"@),
        st matches AccountStream::OrdersById(o) ==> has_suffix(
            account_stream_endpoint(ids, st),
            "/orders/"@ + join(string_views(o@), ","@),
        ),
        st is Positions ==> has_suffix(account_stream_endpoint(ids, st), "/positions"@),
{
    let head = "brokerage/stream/accounts/"@ + join(ids, ","@);
    let ep = account_stream_endpoint(ids, st);
    assert(ep == head + account_stream_suffix(st));
    lemma_suffix_of_concat(head, account_stream_suffix(st));
    if 0 <= i < ids.len() {
        lemma_join_has_part(ids, ","@, i);
        lemma_infix_prepend("brokerage/stream/accounts/"@, join(ids, ","@), ids[i]);
        lemma_infix_extend(head, account_stream_suffix(st), ids[i]);
    }
}

} // verus!
