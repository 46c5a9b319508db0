//! The auction's data model: the stored records, their mathematical view,
//! the invariants of a reachable state, and the transition rules of the
//! engine as spec-level functions.
use vstd::prelude::*;

use crate::error::ContractError;
use crate::ledger::{distinct_addrs, ledger, sum_commissions, sum_totals};
use crate::msg::Coin;

verus! {

/// One bidder's funds: what is returnable to them and what has already been
/// withheld as commission.  Their sum is the bidder's cumulative total.
#[derive(Debug, Clone, Copy, PartialEq, Eq, Structural)]
pub struct Bid {
    pub retractable: u128,
    pub commission: u128,
}

/// The mathematical value of a bid record.
pub struct BidView {
    pub retractable: int,
    pub commission: int,
}

impl BidView {
    /// The bidder's cumulative total: everything they have attached so far.
    pub open spec fn total(self) -> int {
        self.retractable + self.commission
    }
}

impl View for Bid {
    type V = BidView;

    open spec fn view(&self) -> BidView {
        BidView { retractable: self.retractable as int, commission: self.commission as int }
    }
}

impl Default for Bid {
    /// The empty record a first-time bidder starts from.
    fn default() -> (b: Bid)
        ensures
            b.retractable == 0,
            b.commission == 0,
    {
        Bid { retractable: 0, commission: 0 }
    }
}

/// One ledger row: a bidder's address and their record.
#[derive(Debug, Clone, PartialEq, Eq)]
pub struct BidEntry {
    pub address: String,
    pub bid: Bid,
}

/// The auction's singleton state.
#[derive(Debug, Clone, PartialEq, Eq)]
pub struct State {
    pub closed: bool,
    pub owner: String,
    pub commission_total: u128,
    pub commission_percent: u8,
    pub max_bid: Option<(String, u128)>,
}

/// One auction instance: the singleton state and the per-bidder ledger,
/// passed explicitly into each operation of the engine.
#[derive(Debug, Clone, PartialEq, Eq)]
pub struct Auction {
    pub state: State,
    pub bids: Vec<BidEntry>,
}

/// The mathematical value of an auction: addresses as character sequences,
/// amounts as unbounded integers, the ledger as a map.
#[verifier::ext_equal]
pub struct AuctionView {
    pub owner: Seq<char>,
    pub closed: bool,
    pub commission_percent: int,
    pub commission_total: int,
    pub max_bid: Option<(Seq<char>, int)>,
    pub ledger: Map<Seq<char>, BidView>,
}

impl View for Auction {
    type V = AuctionView;

    open spec fn view(&self) -> AuctionView {
        AuctionView {
            owner: self.state.owner@,
            closed: self.state.closed,
            commission_percent: self.state.commission_percent as int,
            commission_total: self.state.commission_total as int,
            max_bid: match self.state.max_bid {
                Some(mb) => Some((mb.0@, mb.1 as int)),
                None => None,
            },
            ledger: ledger(self.bids@),
        }
    }
}

/// The record an address holds, or the empty record if it never bid.
pub open spec fn record_of(m: AuctionView, addr: Seq<char>) -> BidView {
    if m.ledger.dom().contains(addr) {
        m.ledger[addr]
    } else {
        BidView { retractable: 0, commission: 0 }
    }
}

/// The cumulative total an address has bid so far, zero if it never bid.
pub open spec fn stake(m: AuctionView, addr: Seq<char>) -> int {
    record_of(m, addr).total()
}

/// The commission withheld from one attached amount: floor division.
pub open spec fn commission_of(amount: int, percent: int) -> int {
    amount * percent / 100
}

/// The amount of the first attached coin of the recognized denomination.
pub open spec fn find_denom(funds: Seq<Coin>) -> Option<u128>
    decreases funds.len(),
{
    if funds.len() == 0 {
        None
    } else if funds[0].denom@ == "ATOM"@ {
        Some(funds[0].amount)
    } else {
        find_denom(funds.drop_first())
    }
}

/// When a bid of `amount` by `sender` is accepted: the sender is not the
/// owner, bidding is open, and the sender's new cumulative total strictly
/// exceeds the current high bid, if there is one.
pub open spec fn bid_allowed(m: AuctionView, sender: Seq<char>, amount: int) -> bool {
    &&& sender != m.owner
    &&& !m.closed
    &&& match m.max_bid {
        None => true,
        Some(mb) => stake(m, sender) + amount > mb.1,
    }
}

/// The error a rejected bid reports, in the order the checks are made.
pub open spec fn bid_error(m: AuctionView, sender: Seq<char>, attached: Option<u128>) -> ContractError {
    if sender == m.owner {
        ContractError::Unauthorized {}
    } else if m.closed {
        ContractError::BiddingClosed {}
    } else if attached is None {
        ContractError::MissingFunds {}
    } else {
        ContractError::BidTooSmall {}
    }
}

/// The state after an accepted bid: the attached amount splits into a
/// commission part (floor of the configured percentage) and a retractable
/// part; the sender's record grows by the split, the commission pool by the
/// commission part, and the sender becomes the leading bidder at their new
/// cumulative total.
pub open spec fn bid_step(m: AuctionView, sender: Seq<char>, amount: int) -> AuctionView {
    let commission = commission_of(amount, m.commission_percent);
    let prev = record_of(m, sender);
    AuctionView {
        owner: m.owner,
        closed: m.closed,
        commission_percent: m.commission_percent,
        commission_total: m.commission_total + commission,
        max_bid: Some((sender, stake(m, sender) + amount)),
        ledger: m.ledger.insert(
            sender,
            BidView {
                retractable: prev.retractable + (amount - commission),
                commission: prev.commission + commission,
            },
        ),
    }
}

/// When a close by `sender` is accepted: only the owner may close, once.
pub open spec fn close_allowed(m: AuctionView, sender: Seq<char>) -> bool {
    sender == m.owner && !m.closed
}

/// The error a rejected close reports, in the order the checks are made.
pub open spec fn close_error(m: AuctionView, sender: Seq<char>) -> ContractError {
    if sender != m.owner {
        ContractError::Unauthorized {}
    } else {
        ContractError::BiddingClosed {}
    }
}

/// The winner's payout at close: their retractable portion plus the whole
/// accumulated commission pool.
pub open spec fn jackpot(m: AuctionView, winner: Seq<char>) -> int {
    record_of(m, winner).retractable + m.commission_total
}

/// The transfer close issues: the jackpot to the leading bidder, or nothing
/// if no bid was ever placed.
pub open spec fn close_transfer(m: AuctionView) -> Option<(Seq<char>, int)> {
    match m.max_bid {
        Some(mb) => Some((mb.0, jackpot(m, mb.0))),
        None => None,
    }
}

/// The state after close: the winner's record (if any) is erased and the
/// auction is marked closed; the high bid stays on record.
pub open spec fn close_step(m: AuctionView) -> AuctionView {
    AuctionView {
        owner: m.owner,
        closed: true,
        commission_percent: m.commission_percent,
        commission_total: m.commission_total,
        max_bid: m.max_bid,
        ledger: match m.max_bid {
            Some(mb) => m.ledger.remove(mb.0),
            None => m.ledger,
        },
    }
}

/// When a retraction by `sender` is accepted: only once the auction closed,
/// and only while the sender still holds a live record.
pub open spec fn retract_allowed(m: AuctionView, sender: Seq<char>) -> bool {
    m.closed && m.ledger.dom().contains(sender)
}

/// The error a rejected retraction reports, in the order the checks are
/// made.
pub open spec fn retract_error(m: AuctionView, sender: Seq<char>) -> ContractError {
    if !m.closed {
        ContractError::BiddingNotClosed {}
    } else {
        ContractError::BidMissing {}
    }
}

/// Where a retraction pays out: the validated override, else the caller.
pub open spec fn retract_dest(sender: Seq<char>, address: Option<Seq<char>>) -> Seq<char> {
    match address {
        Some(a) => a,
        None => sender,
    }
}

/// The state after a retraction: the caller's record is erased.
pub open spec fn retract_step(m: AuctionView, sender: Seq<char>) -> AuctionView {
    AuctionView {
        owner: m.owner,
        closed: m.closed,
        commission_percent: m.commission_percent,
        commission_total: m.commission_total,
        max_bid: m.max_bid,
        ledger: m.ledger.remove(sender),
    }
}

/// The logical invariants of a reachable auction state: the commission
/// percentage is a percentage, records hold non-negative funds, before any
/// bid the ledger is empty, and the recorded high bid is the unique maximum:
/// while open it is a live record's exact total and strictly exceeds every
/// other record; once closed the winner's record is gone and every remaining
/// record lies strictly below the winning total.
pub open spec fn inv(m: AuctionView) -> bool {
    &&& 0 <= m.commission_percent <= 100
    &&& 0 <= m.commission_total
    &&& forall|a: Seq<char>| #[trigger]
        m.ledger.dom().contains(a) ==> 0 <= m.ledger[a].retractable && 0 <= m.ledger[a].commission
    &&& match m.max_bid {
        None => forall|a: Seq<char>| !(#[trigger] m.ledger.dom().contains(a)),
        Some(mb) => {
            if !m.closed {
                &&& m.ledger.dom().contains(mb.0)
                &&& m.ledger[mb.0].total() == mb.1
                &&& forall|a: Seq<char>| #[trigger]
                    m.ledger.dom().contains(a) && a != mb.0 ==> m.ledger[a].total() < mb.1
            } else {
                &&& !m.ledger.dom().contains(mb.0)
                &&& forall|a: Seq<char>| #[trigger]
                    m.ledger.dom().contains(a) ==> m.ledger[a].total() < mb.1
            }
        },
    }
}

impl Auction {
    /// A well-formed auction: one row per address, the model invariants
    /// hold, the funds held live fit the asset's integer width, and, while
    /// open, the commission pool equals the commission held in the ledger.
    pub open spec fn wf(self) -> bool {
        &&& distinct_addrs(self.bids@)
        &&& inv(self@)
        &&& sum_totals(self.bids@) <= u128::MAX
        &&& (!self.state.closed ==> self.state.commission_total == sum_commissions(self.bids@))
    }
}

} // verus!
