//! Positions held in brokerage accounts.
use vstd::prelude::*;
use super::orders::AssetType;
use crate::error::Error;
use crate::text::string_views;

verus! {

/// A position held in a brokerage account.
#[derive(Clone, Debug)]
pub struct Position {
    /// The `Account` id the `Position` belongs to.
    pub account_id: String,
    /// Indicates the asset type of the position.
    pub asset_type: AssetType,
    /// The average price of the position currently held.
    pub average_price: String,
    /// The highest price a prospective buyer is prepared to pay at
    /// a particular time for a trading unit of a given symbol.
    pub bid: String,
    /// The price at which a security, futures contract, or other
    /// financial instrument is offered for sale.
    pub ask: String,
    /// The currency conversion rate that is used in order to convert
    /// from the currency of the symbol to the currency of the account.
    pub conversion_rate: String,
    /// DayTradeMargin used on open positions.
    ///
    /// NOTE: Currently only calculated for futures positions.
    /// Other asset classes will have a 0 for this value.
    pub day_trade_requirement: String,
    /// The UTC formatted expiration date of the future or option symbol,
    /// in the country the contract is traded in.
    ///
    /// NOTE: The time portion of the value should be ignored.
    pub expiration_date: Option<String>,
    /// The margin account balance denominated in the symbol currency required
    /// for entering a position on margin.
    ///
    /// NOTE: Only applies to future and option positions.
    pub initial_requirement: String,
    /// The last price at which the symbol traded.
    pub last: String,
    /// Specifies if the position is Long or Short.
    pub long_short: PositionType,
    /// The MarkToMarketPrice value is the weighted average of the previous close
    /// price for the position quantity held overnight and the purchase price of the
    /// position quantity opened during the current market session.
    ///
    /// NOTE: This value is used to calculate TodaysProfitLoss.
    ///
    /// NOTE: Only applies to equity and option positions.
    pub mark_to_market_price: String,
    /// The actual market value denominated in the symbol currency of the open position.
    ///
    /// NOTE: This value is updated in real-time.
    pub market_value: String,
    /// A unique identifier for the position.
    pub position_id: String,
    /// The number of shares or contracts for a particular position.
    ///
    /// NOTE: This value is negative for short positions.
    pub quantity: String,
    /// Symbol of the position.
    pub symbol: String,
    /// Time the position was entered.
    pub timestamp: String,
    /// The unrealized profit or loss denominated in the account currency on the position
    /// held, calculated using the MarkToMarketPrice.
    ///
    /// NOTE: Only applies to equity and option positions.
    pub todays_pnl: String,
    /// The total cost denominated in the account currency of the open position.
    pub total_cost: String,
    /// The unrealized profit or loss denominated in the symbol currency on the position
    /// held, calculated based on the average price of the position.
    pub unrealized_pnl: String,
    /// The unrealized profit or loss on the position expressed as a percentage of the
    /// initial value of the position.
    pub unrealized_pnl_percent: String,
    /// The unrealized profit or loss denominated in the account currency divided by the
    /// number of shares, contracts or units held.
    pub unrealized_pnl_qty: String,
}

/// Whether a position is long or short.
#[derive(Clone, Copy, Debug, PartialEq, Eq)]
pub enum PositionType {
    /// Long
    Long,
    /// Short
    Short,
}

/// Whether the position's id is one of `ids`.
pub open spec fn position_selected(ids: Seq<Seq<char>>, p: Position) -> bool {
    ids.contains(p.position_id@)
}

/// The positions whose id is one of `ids`, in their order.
pub open spec fn positions_with_ids(positions: Seq<Position>, ids: Seq<Seq<char>>) -> Seq<Position> {
    positions.filter(|p: Position| position_selected(ids, p))
}

/// Filtering a list extended by one element.
proof fn lemma_filter_push<A>(s: Seq<A>, pred: spec_fn(A) -> bool, e: A)
    ensures
        pred(e) ==> s.push(e).filter(pred) == s.filter(pred).push(e),
        !pred(e) ==> s.push(e).filter(pred) == s.filter(pred),
{
    reveal(Seq::filter);
    assert(s.push(e).drop_last() =~= s);
}

/// Whether the text of `id` is one of `ids`.
pub fn contains_text(ids: &Vec<String>, id: &String) -> (b: bool)
    ensures
        b == string_views(ids@).contains(id@),
{
    let ghost views = string_views(ids@);
    let mut i: usize = 0;
    while i < ids.len()
        invariant
            i <= ids.len(),
            views == string_views(ids@),
            forall|j: int| 0 <= j < i ==> views[j] != id@,
        decreases ids.len() - i,
    {
        if ids[i] == *id {
            assert(views[i as int] == id@);
            return true;
        }
        i = i + 1;
    }
    assert forall|k: int| 0 <= k < views.len() implies views[k] != id@ by {}
    false
}

impl Position {
    /// The positions of `positions` whose id is one of `ids`, in their order.
    pub fn keep_ids(positions: Vec<Position>, ids: &Vec<String>) -> (r: Vec<Position>)
        ensures
            r@ == positions_with_ids(positions@, string_views(ids@)),
    {
        let ghost all = positions@;
        let ghost views = string_views(ids@);
        let ghost pred = |p: Position| position_selected(views, p);
        let mut kept: Vec<Position> = Vec::new();
        proof {
            reveal(Seq::filter);
            assert(all.take(0) =~= Seq::<Position>::empty());
        }
        for p in it: positions
            invariant
                all == it.seq(),
                views == string_views(ids@),
                pred == (|p: Position| position_selected(views, p)),
                kept@ == all.take(it.index() as int).filter(pred),
        {
            let ghost idx = it.index();
            let ghost before = kept@;
            let keep = contains_text(ids, &p.position_id);
            proof {
                assert(all[idx as int] == p);
                assert(all.take(idx as int + 1) =~= all.take(idx as int).push(p));
                lemma_filter_push(all.take(idx as int), pred, p);
                assert(keep == pred(p));
            }
            if keep {
                kept.push(p);
            }
        }
        proof {
            assert(all.take(all.len() as int) =~= all);
        }
        kept
    }

    /// The first position of a non-empty list.
    pub fn first_of(positions: Vec<Position>) -> (r: Position)
        requires
            positions@.len() > 0,
        ensures
            r == positions@[0],
    {
        let mut positions = positions;
        positions.swap_remove(0)
    }

    /// The first position of the list, or `PositionNotFound` with the
    /// position id and the account id(s) that were searched when the list is
    /// empty.
    pub fn position_or_not_found(positions: Vec<Position>, position_id: &str, account_id: &str) -> (r: Result<Position, Error>)
        ensures
            positions@.len() > 0 ==> r == Ok::<Position, Error>(positions@[0]),
            positions@.len() == 0 ==> (r matches Err(Error::PositionNotFound(p, a)) && p@ == position_id@
                && a@ == account_id@),
    {
        if positions.len() == 0 {
            Err(Error::PositionNotFound(String::from_str(position_id), String::from_str(account_id)))
        } else {
            Ok(Position::first_of(positions))
        }
    }
}

} // verus!
