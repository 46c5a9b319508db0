//! The guarantees of the auction as stated, provable facts: preservation of
//! the state invariants by every transition, and the ordering, conservation
//! and payout properties the engine's contracts promise.
use vstd::prelude::*;

use crate::commission::lemma_commission_bounds;
use crate::error::ContractError;
use crate::state::{
    bid_allowed, bid_step, close_allowed, close_error, close_step, close_transfer, commission_of,
    inv, record_of, retract_allowed, retract_error, retract_step, stake, AuctionView,
};

verus! {

/// An accepted bid preserves the state invariants.
pub proof fn lemma_inv_bid_step(m: AuctionView, sender: Seq<char>, amount: int)
    requires
        inv(m),
        bid_allowed(m, sender, amount),
        0 <= amount,
    ensures
        inv(bid_step(m, sender, amount)),
{
    lemma_commission_bounds(amount, m.commission_percent);
    let m2 = bid_step(m, sender, amount);
    let t2 = stake(m, sender) + amount;
    assert(m2.ledger[sender].total() == t2);
    assert forall|a: Seq<char>| #[trigger]
        m2.ledger.dom().contains(a) implies 0 <= m2.ledger[a].retractable && 0
        <= m2.ledger[a].commission by {
        if a != sender {
            assert(m.ledger.dom().contains(a));
        }
    }
    assert forall|a: Seq<char>|
        #[trigger] m2.ledger.dom().contains(a) && a != sender implies m2.ledger[a].total()
        < t2 by {
        assert(m.ledger.dom().contains(a));
        match m.max_bid {
            None => {
                assert(false);
            },
            Some(mb) => {
                if a == mb.0 {
                    assert(m.ledger[a].total() == mb.1);
                } else {
                    assert(m.ledger[a].total() < mb.1);
                }
            },
        }
    }
}

/// An accepted close preserves the state invariants.
pub proof fn lemma_inv_close_step(m: AuctionView, sender: Seq<char>)
    requires
        inv(m),
        close_allowed(m, sender),
    ensures
        inv(close_step(m)),
{
}

/// An accepted retraction preserves the state invariants.
pub proof fn lemma_inv_retract_step(m: AuctionView, sender: Seq<char>)
    requires
        inv(m),
        retract_allowed(m, sender),
    ensures
        inv(retract_step(m, sender)),
{
}

/// The recorded high bid of an open auction is the greatest cumulative
/// total so far: it is a live record's exact total, no stake exceeds it,
/// and every other live record stands strictly below it; before any bid,
/// every stake is zero.
pub proof fn law_highest_is_maximum(m: AuctionView)
    requires
        inv(m),
        !m.closed,
    ensures
        match m.max_bid {
            Some(mb) => {
                &&& stake(m, mb.0) == mb.1
                &&& forall|b: Seq<char>| #[trigger] stake(m, b) <= mb.1
                &&& forall|b: Seq<char>| #[trigger]
                    m.ledger.dom().contains(b) && b != mb.0 ==> m.ledger[b].total() < mb.1
            },
            None => forall|b: Seq<char>| #[trigger] stake(m, b) == 0,
        },
{
    match m.max_bid {
        Some(mb) => {
            assert forall|b: Seq<char>| #[trigger] stake(m, b) <= mb.1 by {
                if m.ledger.dom().contains(b) && b != mb.0 {
                    assert(m.ledger[b].total() < mb.1);
                } else if !m.ledger.dom().contains(b) {
                    assert(stake(m, b) == 0);
                    assert(0 <= m.ledger[mb.0].retractable && 0 <= m.ledger[mb.0].commission);
                }
            }
        },
        None => {},
    }
}

/// Strict ordering of accepted bids: after an accepted bid the sender leads
/// at their new cumulative total and every other bidder stands strictly
/// below it; a bid whose new total does not strictly exceed the prior
/// maximum is never accepted, and is reported as too small.
pub proof fn law_bid_strict_ordering(m: AuctionView, sender: Seq<char>, amount: int)
    requires
        inv(m),
        0 <= amount,
    ensures
        bid_allowed(m, sender, amount) ==> {
            let post = bid_step(m, sender, amount);
            &&& post.max_bid == Some((sender, stake(m, sender) + amount))
            &&& stake(post, sender) == stake(m, sender) + amount
            &&& forall|b: Seq<char>| #[trigger] stake(post, b) <= stake(m, sender) + amount
            &&& forall|b: Seq<char>| #[trigger]
                post.ledger.dom().contains(b) && b != sender ==> post.ledger[b].total() < stake(
                    m,
                    sender,
                ) + amount
        },
        (sender != m.owner && !m.closed && !bid_allowed(m, sender, amount)) ==> (m.max_bid matches
            Some(mb) && stake(m, sender) + amount <= mb.1),
{
    if bid_allowed(m, sender, amount) {
        lemma_inv_bid_step(m, sender, amount);
        let post = bid_step(m, sender, amount);
        assert(post.ledger[sender].total() == stake(m, sender) + amount);
        assert forall|b: Seq<char>| #[trigger] stake(post, b) <= stake(m, sender) + amount by {
            if post.ledger.dom().contains(b) && b != sender {
                assert(post.ledger[b].total() < stake(m, sender) + amount);
            } else if !post.ledger.dom().contains(b) {
                assert(stake(post, b) == 0);
                assert(0 <= post.ledger[sender].retractable && 0 <= post.ledger[sender].commission);
            }
        }
    }
}

/// A sequence of accepted bids, applied in order.
pub open spec fn apply_bids(m: AuctionView, bids: Seq<(Seq<char>, int)>) -> AuctionView
    decreases bids.len(),
{
    if bids.len() == 0 {
        m
    } else {
        bid_step(apply_bids(m, bids.drop_last()), bids.last().0, bids.last().1)
    }
}

/// Whether each bid of the sequence is accepted in the state it meets.
pub open spec fn bids_accepted(m: AuctionView, bids: Seq<(Seq<char>, int)>) -> bool
    decreases bids.len(),
{
    if bids.len() == 0 {
        true
    } else {
        bids_accepted(m, bids.drop_last()) && bid_allowed(
            apply_bids(m, bids.drop_last()),
            bids.last().0,
            bids.last().1,
        )
    }
}

/// The floor commission summed over a sequence of bids.
pub open spec fn total_commission(bids: Seq<(Seq<char>, int)>, percent: int) -> int
    decreases bids.len(),
{
    if bids.len() == 0 {
        0
    } else {
        total_commission(bids.drop_last(), percent) + commission_of(bids.last().1, percent)
    }
}

/// The amounts one bidder attached, summed over a sequence of bids.
pub open spec fn amount_by(bids: Seq<(Seq<char>, int)>, bidder: Seq<char>) -> int
    decreases bids.len(),
{
    if bids.len() == 0 {
        0
    } else {
        amount_by(bids.drop_last(), bidder) + if bids.last().0 == bidder {
            bids.last().1
        } else {
            0
        }
    }
}

/// Bids never change the configured commission percentage.
pub proof fn lemma_apply_bids_percent(m: AuctionView, bids: Seq<(Seq<char>, int)>)
    ensures
        apply_bids(m, bids).commission_percent == m.commission_percent,
    decreases bids.len(),
{
    if bids.len() > 0 {
        lemma_apply_bids_percent(m, bids.drop_last());
    }
}

/// Commission conservation: after any sequence of accepted bids the
/// commission pool has grown by exactly the floor commission of each
/// attached amount, summed.
pub proof fn law_commission_conservation(m: AuctionView, bids: Seq<(Seq<char>, int)>)
    requires
        bids_accepted(m, bids),
    ensures
        apply_bids(m, bids).commission_total == m.commission_total + total_commission(
            bids,
            m.commission_percent,
        ),
    decreases bids.len(),
{
    if bids.len() > 0 {
        law_commission_conservation(m, bids.drop_last());
        lemma_apply_bids_percent(m, bids.drop_last());
    }
}

/// Bidder accumulation: after any sequence of accepted bids a bidder's
/// cumulative total has grown by exactly the sum of the amounts they
/// attached.
pub proof fn law_bidder_accumulation(
    m: AuctionView,
    bids: Seq<(Seq<char>, int)>,
    bidder: Seq<char>,
)
    requires
        bids_accepted(m, bids),
    ensures
        stake(apply_bids(m, bids), bidder) == stake(m, bidder) + amount_by(bids, bidder),
    decreases bids.len(),
{
    if bids.len() > 0 {
        law_bidder_accumulation(m, bids.drop_last(), bidder);
        let prev = apply_bids(m, bids.drop_last());
        let post = apply_bids(m, bids);
        if bids.last().0 == bidder {
            assert(post.ledger[bidder].total() == stake(prev, bidder) + bids.last().1);
        } else {
            assert(stake(post, bidder) == stake(prev, bidder));
        }
    }
}

/// Close succeeds at most once: a close leaves the auction closed with the
/// high bid still on record, no further close is ever accepted, and the
/// owner's retry is reported as bidding being closed.
pub proof fn law_close_at_most_once(m: AuctionView, caller: Seq<char>)
    ensures
        close_step(m).closed,
        close_step(m).max_bid == m.max_bid,
        !close_allowed(close_step(m), caller),
        close_error(close_step(m), close_step(m).owner) == (ContractError::BiddingClosed {  }),
{
}

/// Payout correctness at close: with a leading bid on record, close pays
/// its holder exactly their retractable portion plus the whole commission
/// pool, erases exactly their record, and leaves every other record
/// untouched.
pub proof fn law_close_payout(m: AuctionView)
    requires
        inv(m),
        !m.closed,
        m.max_bid is Some,
    ensures
        match m.max_bid {
            Some(mb) => {
                &&& close_transfer(m) == Some(
                    (mb.0, record_of(m, mb.0).retractable + m.commission_total),
                )
                &&& !close_step(m).ledger.dom().contains(mb.0)
                &&& forall|b: Seq<char>|
                    b != mb.0 ==> (#[trigger] close_step(m).ledger.dom().contains(b)
                        <==> m.ledger.dom().contains(b))
                &&& forall|b: Seq<char>|
                    b != mb.0 && m.ledger.dom().contains(b) ==> #[trigger] close_step(m).ledger[b]
                        == m.ledger[b]
            },
            None => false,
        },
{
}

/// Retract correctness after close: a bidder with a live record is never
/// the winner, may retract once, loses exactly their record, and a second
/// retraction is never accepted and reports the record as missing.  The
/// auction stays closed and the recorded high bid does not move.
pub proof fn law_retract_once(m: AuctionView, bidder: Seq<char>)
    requires
        inv(m),
        m.closed,
        m.ledger.dom().contains(bidder),
    ensures
        m.max_bid matches Some(mb) ==> bidder != mb.0,
        retract_allowed(m, bidder),
        retract_step(m, bidder).ledger == m.ledger.remove(bidder),
        retract_step(m, bidder).closed,
        retract_step(m, bidder).max_bid == m.max_bid,
        !retract_allowed(retract_step(m, bidder), bidder),
        retract_error(retract_step(m, bidder), bidder) == (ContractError::BidMissing {  }),
{
}

} // verus!
