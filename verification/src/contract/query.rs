//! The read-only projections of the auction's state.  None of them mutates
//! anything, and none of them can fail.
use vstd::prelude::*;

use crate::ledger::{find_bid, lemma_entry_le_sum, lemma_ledger_index};
use crate::msg::{BidResp, ClosedResp, HighestResp, WinnerResp};
use crate::state::{stake, Auction};

verus! {

/// The cumulative total `address` has bid so far: retractable plus withheld
/// commission, or zero if the address never bid.
pub fn bid(auction: &Auction, address: String) -> (resp: BidResp)
    requires
        auction.wf(),
    ensures
        resp.bid as int == stake(auction@, address@),
{
    match find_bid(&auction.bids, &address) {
        Some(i) => {
            proof {
                lemma_ledger_index(auction.bids@, i as int);
                lemma_entry_le_sum(auction.bids@, i as int);
            }
            let b = auction.bids[i].bid;
            BidResp { bid: b.retractable + b.commission }
        },
        None => BidResp { bid: 0 },
    }
}

/// The current leading bidder and their cumulative total, or nothing before
/// the first bid.
pub fn highest(auction: &Auction) -> (resp: Option<HighestResp>)
    ensures
        match auction@.max_bid {
            Some(mb) => resp matches Some(h) && h.address@ == mb.0 && h.amount as int == mb.1,
            None => resp is None,
        },
{
    match &auction.state.max_bid {
        Some(mb) => Some(HighestResp { address: mb.0.clone(), amount: mb.1 }),
        None => None,
    }
}

/// The winner: the leading bidder, reported only once the auction closed.
/// An open auction has no winner yet, even with a leading bid on record.
pub fn winner(auction: &Auction) -> (resp: WinnerResp)
    ensures
        if auction@.closed {
            match auction@.max_bid {
                Some(mb) => resp.winner matches Some(h) && h.address@ == mb.0 && h.amount as int
                    == mb.1,
                None => resp.winner is None,
            }
        } else {
            resp.winner is None
        },
{
    let mut w: Option<HighestResp> = None;
    if auction.state.closed {
        if let Some(mb) = &auction.state.max_bid {
            w = Some(HighestResp { address: mb.0.clone(), amount: mb.1 });
        }
    }
    WinnerResp { winner: w }
}

/// Whether the auction has been closed.
pub fn closed(auction: &Auction) -> (resp: ClosedResp)
    ensures
        resp.closed == auction@.closed,
{
    ClosedResp { closed: auction.state.closed }
}

} // verus!
