//! An escrow-style ascending auction.
//!
//! Bidders submit monotonically increasing cumulative bids in a single asset
//! denomination; the highest bidder wins; the owner closes the auction to
//! settle funds; losers retract their non-winning funds, with a per-bid
//! commission withheld for the auctioneer and paid to the winner at close.
//!
//! The engine here is the auction state machine alone: the rules that accept
//! or reject a bid, track the running maximum, split incoming funds into
//! commission and retractable balance, and resolve payouts on close and
//! retract.  The durable store, address validation and the token transfer
//! primitive are external collaborators: a host loads an [`state::Auction`],
//! calls one operation, persists the result and executes the returned
//! [`msg::Transfer`] instructions as one atomic transaction.
use vstd::prelude::*;

pub mod commission;
pub mod contract;
pub mod error;
pub mod laws;
pub mod ledger;
pub mod msg;
pub mod state;

use crate::contract::exec::{bid_funds_fit, bid_outcome, close_outcome, retract_outcome};
use crate::error::ContractError;
use crate::msg::{ExecMsg, InstantiateMsg, MessageInfo, QueryMsg, QueryResponse, Response};
use crate::state::{stake, Auction, BidView};

verus! {

/// Creates an auction for the creator described by `info`; the entry point
/// a host calls once per instance.
pub fn instantiate(info: &MessageInfo, msg: InstantiateMsg) -> (auction: Auction)
    requires
        msg.commission_percent matches Some(p) ==> p <= 100,
    ensures
        auction.wf(),
        auction.bids@.len() == 0,
        auction@.closed == false,
        auction@.commission_total == 0,
        auction@.max_bid is None,
        auction@.ledger == Map::<Seq<char>, BidView>::empty(),
        auction@.owner == match msg.owner {
            Some(o) => o@,
            None => info.sender@,
        },
        auction@.commission_percent == match msg.commission_percent {
            Some(p) => p as int,
            None => contract::COMMISSION_DEFAULT as int,
        },
{
    contract::instantiate(info, msg)
}

/// Dispatches one mutating operation; the entry point a host calls with the
/// caller's identity, the attached funds and the decoded message.
pub fn execute(auction: &mut Auction, info: &MessageInfo, msg: ExecMsg) -> (r: Result<
    Response,
    ContractError,
>)
    requires
        old(auction).wf(),
        msg is Bid ==> bid_funds_fit(*old(auction), *info),
    ensures
        final(auction).wf(),
        match msg {
            ExecMsg::Bid {} => bid_outcome(*old(auction), *final(auction), *info, r),
            ExecMsg::Close {} => close_outcome(*old(auction), *final(auction), *info, r),
            ExecMsg::Retract { address } => retract_outcome(
                *old(auction),
                *final(auction),
                *info,
                address,
                r,
            ),
        },
{
    match msg {
        ExecMsg::Bid {} => contract::exec::bid(auction, info),
        ExecMsg::Close {} => contract::exec::close(auction, info),
        ExecMsg::Retract { address } => contract::exec::retract(auction, info, address),
    }
}

/// Dispatches one read-only query; never mutates and never fails.
pub fn query(auction: &Auction, msg: QueryMsg) -> (resp: QueryResponse)
    requires
        auction.wf(),
    ensures
        match msg {
            QueryMsg::Bid { address } => resp matches QueryResponse::Bid(b) && b.bid as int
                == stake(auction@, address@),
            QueryMsg::Highest {} => resp matches QueryResponse::Highest(h) && match auction@
                .max_bid {
                Some(mb) => h matches Some(hr) && hr.address@ == mb.0 && hr.amount as int == mb.1,
                None => h is None,
            },
            QueryMsg::Closed {} => resp matches QueryResponse::Closed(c) && c.closed == auction@
                .closed,
            QueryMsg::Winner {} => resp matches QueryResponse::Winner(w) && if auction@.closed {
                match auction@.max_bid {
                    Some(mb) => w.winner matches Some(hr) && hr.address@ == mb.0
                        && hr.amount as int == mb.1,
                    None => w.winner is None,
                }
            } else {
                w.winner is None
            },
        },
{
    match msg {
        QueryMsg::Bid { address } => QueryResponse::Bid(contract::query::bid(auction, address)),
        QueryMsg::Highest {} => QueryResponse::Highest(contract::query::highest(auction)),
        QueryMsg::Closed {} => QueryResponse::Closed(contract::query::closed(auction)),
        QueryMsg::Winner {} => QueryResponse::Winner(contract::query::winner(auction)),
    }
}

} // verus!
