//! The error taxonomy of the auction engine.
use vstd::prelude::*;

verus! {

/// Every way a bid, close or retract call can be rejected.  Each variant is
/// terminal for the triggering call: the caller's state is left untouched.
#[derive(Debug, Clone, PartialEq, Eq, Structural)]
pub enum ContractError {
    /// A host-level fault that the invariants rule out.
    Unexpected {},
    /// The caller is the owner where only bidders may act, or a bidder where
    /// only the owner may act.
    Unauthorized {},
    /// The new cumulative total does not strictly exceed the current high bid.
    BidTooSmall {},
    /// The auction is already closed and no longer accepts this action.
    BiddingClosed {},
    /// The auction is still open, so retraction is not yet legal.
    BiddingNotClosed {},
    /// The caller has no live bid record to act on.
    BidMissing {},
    /// No funds of the recognized denomination were attached to the bid.
    MissingFunds {},
}

} // verus!
