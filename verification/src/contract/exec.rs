//! The mutating operations of the engine: bid, close and retract.
use vstd::prelude::*;

use crate::commission::{commission_for, lemma_commission_bounds};
use crate::error::ContractError;
use crate::ledger::{
    find_bid, lemma_commissions_le_totals, lemma_entry_le_sum, lemma_ledger_contains,
    lemma_ledger_index, lemma_ledger_push, lemma_ledger_remove, lemma_ledger_update, sum_totals,
};
use crate::laws::{lemma_inv_bid_step, lemma_inv_close_step, lemma_inv_retract_step};
use crate::msg::{Coin, Event, MessageInfo, Response, Transfer};
use crate::state::{
    bid_allowed, bid_error, bid_step, close_allowed, close_error, close_step, close_transfer,
    find_denom, record_of, retract_allowed, retract_dest, retract_error, retract_step, stake,
    Auction, Bid, BidEntry,
};

verus! {

/// The single recognized asset denomination, as an owned string.
pub(crate) fn denom_atom() -> (s: String)
    ensures
        s@ == "ATOM"@,
{
    "ATOM".to_owned()
}

/// The first attached coin of the recognized denomination, if any.
fn find_atom(funds: &Vec<Coin>) -> (r: Option<u128>)
    ensures
        r == find_denom(funds@),
{
    let atom = denom_atom();
    let n = funds.len();
    let mut i: usize = 0;
    proof {
        assert(funds@.skip(0) =~= funds@);
    }
    while i < n
        invariant
            n == funds.len(),
            i <= n,
            atom@ == "ATOM"@,
            find_denom(funds@) == find_denom(funds@.skip(i as int)),
        decreases n - i,
    {
        if funds[i].denom == atom {
            proof {
                assert(funds@.skip(i as int)[0] == funds@[i as int]);
            }
            return Some(funds[i].amount);
        }
        proof {
            assert(funds@.skip(i as int)[0] == funds@[i as int]);
            assert(funds@.skip(i as int).drop_first() =~= funds@.skip(i as int + 1));
        }
        i = i + 1;
    }
    proof {
        assert(funds@.skip(n as int).len() == 0);
    }
    None
}

/// What the asset's integer width forces on a bid that reaches arithmetic:
/// the funds the contract already holds plus the attached amount must fit.
pub open spec fn bid_funds_fit(pre: Auction, info: MessageInfo) -> bool {
    match find_denom(info.funds@) {
        Some(amount) => (info.sender@ != pre@.owner && !pre@.closed) ==> sum_totals(pre.bids@)
            + amount <= u128::MAX,
        None => true,
    }
}

/// Everything a bid call promises.  It succeeds exactly when the sender is
/// not the owner, bidding is open, funds of the recognized denomination are
/// attached, and the sender's new cumulative total strictly exceeds the
/// current high bid.  On success the state advances by [`bid_step`] and the
/// returned event records the sender and their new cumulative total; on
/// failure the state is untouched and the error names the first failed
/// check.
pub open spec fn bid_outcome(
    pre: Auction,
    post: Auction,
    info: MessageInfo,
    r: Result<Response, ContractError>,
) -> bool {
    &&& (r is Ok) <==> match find_denom(info.funds@) {
        None => false,
        Some(amount) => bid_allowed(pre@, info.sender@, amount as int),
    }
    &&& (r matches Err(e) ==> post == pre && e == bid_error(
        pre@,
        info.sender@,
        find_denom(info.funds@),
    ))
    &&& (r matches Ok(resp) ==> match find_denom(info.funds@) {
        None => false,
        Some(amount) => {
            &&& post@ == bid_step(pre@, info.sender@, amount as int)
            &&& sum_totals(post.bids@) == sum_totals(pre.bids@) + amount
            &&& resp.messages@.len() == 0
            &&& resp.event matches Some(e) && e.action@ == "bid"@ && e.sender@ == info.sender@
                && e.total_bid as int == stake(pre@, info.sender@) + amount
        },
    })
}

/// Accepts or rejects a bid by `info.sender` carrying `info.funds`; see
/// [`bid_outcome`] for the full promise.
pub fn bid(auction: &mut Auction, info: &MessageInfo) -> (r: Result<Response, ContractError>)
    requires
        old(auction).wf(),
        bid_funds_fit(*old(auction), *info),
    ensures
        final(auction).wf(),
        bid_outcome(*old(auction), *final(auction), *info, r),
{
    let ghost pre = *auction;
    if info.sender == auction.state.owner {
        return Err(ContractError::Unauthorized {});
    }
    if auction.state.closed {
        return Err(ContractError::BiddingClosed {});
    }
    let incoming = match find_atom(&info.funds) {
        Some(a) => a,
        None => {
            return Err(ContractError::MissingFunds {});
        },
    };
    let idx = find_bid(&auction.bids, &info.sender);
    let current = match idx {
        Some(i) => {
            proof {
                lemma_ledger_index(auction.bids@, i as int);
                lemma_entry_le_sum(auction.bids@, i as int);
            }
            auction.bids[i].bid
        },
        None => {
            proof {
                lemma_commissions_le_totals(auction.bids@);
            }
            Bid::default()
        },
    };
    proof {
        assert(current@ == record_of(pre@, info.sender@));
        assert(current@.total() <= sum_totals(pre.bids@));
    }
    let total_bid = incoming + current.retractable + current.commission;
    if let Some(mb) = &auction.state.max_bid {
        if total_bid <= mb.1 {
            return Err(ContractError::BidTooSmall {});
        }
    }
    let commission = commission_for(incoming, auction.state.commission_percent);
    proof {
        lemma_commission_bounds(incoming as int, auction.state.commission_percent as int);
    }
    let retractable = incoming - commission;
    let new_bid = Bid {
        retractable: current.retractable + retractable,
        commission: current.commission + commission,
    };
    let ghost pre_bids = auction.bids@;
    match idx {
        Some(i) => {
            auction.bids[i].bid = new_bid;
            proof {
                lemma_ledger_update(pre_bids, i as int, auction.bids@[i as int]);
                assert forall|p: int, q: int|
                    0 <= p < q < auction.bids@.len() implies auction.bids@[p].address@
                    != auction.bids@[q].address@ by {
                    assert(auction.bids@[p].address == pre_bids[p].address);
                    assert(auction.bids@[q].address == pre_bids[q].address);
                }
            }
        },
        None => {
            auction.bids.push(BidEntry { address: info.sender.clone(), bid: new_bid });
            proof {
                lemma_ledger_push(pre_bids, auction.bids@.last());
                lemma_ledger_contains(pre_bids, info.sender@);
                assert forall|p: int, q: int|
                    0 <= p < q < auction.bids@.len() implies auction.bids@[p].address@
                    != auction.bids@[q].address@ by {
                    if q < pre_bids.len() {
                        assert(auction.bids@[p] == pre_bids[p]);
                        assert(auction.bids@[q] == pre_bids[q]);
                    } else {
                        assert(auction.bids@[p] == pre_bids[p]);
                        assert(auction.bids@[q].address@ == info.sender@);
                    }
                }
            }
        },
    }
    auction.state.max_bid = Some((info.sender.clone(), total_bid));
    proof {
        lemma_commissions_le_totals(pre.bids@);
    }
    auction.state.commission_total = auction.state.commission_total + commission;
    proof {
        lemma_inv_bid_step(pre@, info.sender@, incoming as int);
        assert(auction@ =~~= bid_step(pre@, info.sender@, incoming as int));
    }
    Ok(
        Response {
            event: Some(
                Event { action: "bid".to_owned(), sender: info.sender.clone(), total_bid },
            ),
            messages: Vec::new(),
        },
    )
}

/// Everything a close call promises.  Only the owner may close, and only
/// once.  If a leading bid exists, its holder wins: one transfer of their
/// retractable portion plus the whole commission pool is issued to them and
/// their record is erased.  If no bid was ever placed, no transfer is
/// issued.  Either way the auction is marked closed; on failure the state
/// is untouched.
pub open spec fn close_outcome(
    pre: Auction,
    post: Auction,
    info: MessageInfo,
    r: Result<Response, ContractError>,
) -> bool {
    &&& (r is Ok) <==> close_allowed(pre@, info.sender@)
    &&& (r matches Err(e) ==> post == pre && e == close_error(pre@, info.sender@))
    &&& (r matches Ok(resp) ==> {
        &&& post@ == close_step(pre@)
        &&& resp.event is None
        &&& match close_transfer(pre@) {
            Some(t) => resp.messages@.len() == 1 && resp.messages@[0].to_address@ == t.0
                && resp.messages@[0].amount as int == t.1 && resp.messages@[0].denom@ == "ATOM"@,
            None => resp.messages@.len() == 0,
        }
    })
}

/// Closes the auction on the owner's behalf; see [`close_outcome`] for the
/// full promise.
pub fn close(auction: &mut Auction, info: &MessageInfo) -> (r: Result<Response, ContractError>)
    requires
        old(auction).wf(),
    ensures
        final(auction).wf(),
        close_outcome(*old(auction), *final(auction), *info, r),
{
    let ghost pre = *auction;
    if !(info.sender == auction.state.owner) {
        return Err(ContractError::Unauthorized {});
    }
    if auction.state.closed {
        return Err(ContractError::BiddingClosed {});
    }
    let winner_addr: Option<String> = match &auction.state.max_bid {
        Some(mb) => Some(mb.0.clone()),
        None => None,
    };
    let mut messages: Vec<Transfer> = Vec::new();
    match winner_addr {
        Some(w) => {
            match find_bid(&auction.bids, &w) {
                Some(i) => {
                    proof {
                        lemma_ledger_index(auction.bids@, i as int);
                        lemma_ledger_remove(auction.bids@, i as int);
                        lemma_commissions_le_totals(auction.bids@.remove(i as int));
                    }
                    let entry = auction.bids.remove(i);
                    let jackpot_amount = entry.bid.retractable + auction.state.commission_total;
                    messages.push(
                        Transfer {
                            to_address: entry.address,
                            amount: jackpot_amount,
                            denom: denom_atom(),
                        },
                    );
                },
                None => {
                    // the leading bidder of an open auction always holds a
                    // live record, so this consistency fault cannot arise
                    proof {
                        assert(false);
                    }
                    return Err(ContractError::BidMissing {});
                },
            }
        },
        None => {},
    }
    auction.state.closed = true;
    proof {
        lemma_inv_close_step(pre@, info.sender@);
        assert(auction@ =~~= close_step(pre@));
    }
    Ok(Response { event: None, messages })
}

/// Everything a retract call promises.  Retraction is legal only once the
/// auction closed and only while the caller still holds a live record: the
/// winner's record is erased by close, and each record is erased by its
/// first retraction.  Exactly the retractable portion is paid out, never
/// the withheld commission.  A destination override that passed the host's
/// address validation redirects the payout; without one the caller is paid.
/// On failure the state is untouched.
pub open spec fn retract_outcome(
    pre: Auction,
    post: Auction,
    info: MessageInfo,
    address: Option<String>,
    r: Result<Response, ContractError>,
) -> bool {
    &&& (r is Ok) <==> retract_allowed(pre@, info.sender@)
    &&& (r matches Err(e) ==> post == pre && e == retract_error(pre@, info.sender@))
    &&& (r matches Ok(resp) ==> {
        &&& post@ == retract_step(pre@, info.sender@)
        &&& resp.event is None
        &&& resp.messages@.len() == 1
        &&& resp.messages@[0].to_address@ == retract_dest(info.sender@, address.deep_view())
        &&& resp.messages@[0].amount as int == record_of(pre@, info.sender@).retractable
        &&& resp.messages@[0].denom@ == "ATOM"@
    })
}

/// Retracts the caller's non-winning funds after close; see
/// [`retract_outcome`] for the full promise.
pub fn retract(auction: &mut Auction, info: &MessageInfo, address: Option<String>) -> (r:
    Result<Response, ContractError>)
    requires
        old(auction).wf(),
    ensures
        final(auction).wf(),
        retract_outcome(*old(auction), *final(auction), *info, address, r),
{
    let ghost pre = *auction;
    if !auction.state.closed {
        return Err(ContractError::BiddingNotClosed {});
    }
    match find_bid(&auction.bids, &info.sender) {
        None => Err(ContractError::BidMissing {}),
        Some(i) => {
            proof {
                lemma_ledger_index(auction.bids@, i as int);
                lemma_ledger_remove(auction.bids@, i as int);
            }
            let entry = auction.bids.remove(i);
            let to_address = match address {
                Some(a) => a,
                None => info.sender.clone(),
            };
            let mut messages: Vec<Transfer> = Vec::new();
            messages.push(
                Transfer { to_address, amount: entry.bid.retractable, denom: denom_atom() },
            );
            proof {
                lemma_inv_retract_step(pre@, info.sender@);
                assert(auction@ =~~= retract_step(pre@, info.sender@));
            }
            Ok(Response { event: None, messages })
        },
    }
}

} // verus!
