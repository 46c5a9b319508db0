//! The message envelope of the auction: requests a caller can make, the
//! read-only answers, and the event/transfer records a mutating call returns.
use vstd::prelude::*;

verus! {

/// A quantity of one asset denomination, as attached to a bid.
#[derive(Debug, Clone, PartialEq, Eq)]
pub struct Coin {
    pub denom: String,
    pub amount: u128,
}

/// The caller's identity and the funds attached to the call, as verified to
/// exist by the host before the engine runs.
#[derive(Debug, Clone, PartialEq, Eq)]
pub struct MessageInfo {
    pub sender: String,
    pub funds: Vec<Coin>,
}

/// Construction-time configuration.  A missing owner defaults to the
/// creator's identity; a missing commission defaults to 5 percent.
#[derive(Debug, Clone, PartialEq, Eq)]
pub struct InstantiateMsg {
    pub owner: Option<String>,
    pub commission_percent: Option<u8>,
}

/// The read-only operations.
#[derive(Debug, Clone, PartialEq, Eq)]
pub enum QueryMsg {
    Bid { address: String },
    Highest {},
    Closed {},
    Winner {},
}

/// The mutating operations.  A `Retract` destination override must already
/// have passed the host's address validation; an override that failed
/// validation is passed as `None`, which falls back to the caller's own
/// address rather than failing the call.
#[derive(Debug, Clone, PartialEq, Eq)]
pub enum ExecMsg {
    Bid {},
    Close {},
    Retract { address: Option<String> },
}

/// The cumulative total a given address has bid so far.
#[derive(Debug, Clone, Copy, PartialEq, Eq, Structural)]
pub struct BidResp {
    pub bid: u128,
}

/// The current leading bidder and their cumulative total.
#[derive(Debug, Clone, PartialEq, Eq)]
pub struct HighestResp {
    pub address: String,
    pub amount: u128,
}

/// Whether the auction has been closed.
#[derive(Debug, Clone, Copy, PartialEq, Eq, Structural)]
pub struct ClosedResp {
    pub closed: bool,
}

/// The winner, reported only once the auction is closed.
#[derive(Debug, Clone, PartialEq, Eq)]
pub struct WinnerResp {
    pub winner: Option<HighestResp>,
}

/// The answer to a `QueryMsg`, one variant per query.
#[derive(Debug, Clone, PartialEq, Eq)]
pub enum QueryResponse {
    Bid(BidResp),
    Highest(Option<HighestResp>),
    Closed(ClosedResp),
    Winner(WinnerResp),
}

/// An instruction to move `amount` of `denom` to `to_address`, executed by
/// the host as part of the same atomic transaction as the state change.
#[derive(Debug, Clone, PartialEq, Eq)]
pub struct Transfer {
    pub to_address: String,
    pub amount: u128,
    pub denom: String,
}

/// The auditable record of a state change: the action's name, the actor, and
/// the actor's resulting cumulative total.
#[derive(Debug, Clone, PartialEq, Eq)]
pub struct Event {
    pub action: String,
    pub sender: String,
    pub total_bid: u128,
}

/// What a successful mutating call hands back to the host: at most one event
/// record and the queued funds transfers.
#[derive(Debug, Clone, PartialEq, Eq)]
pub struct Response {
    pub event: Option<Event>,
    pub messages: Vec<Transfer>,
}

} // verus!
