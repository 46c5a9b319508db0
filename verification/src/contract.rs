//! The auction engine: construction, the mutating operations, and the
//! read-only queries, each a single atomic step against one `Auction` value.
use vstd::prelude::*;

pub mod exec;
pub mod query;

use crate::msg::{InstantiateMsg, MessageInfo};
use crate::state::{Auction, BidView, State};

verus! {

/// The commission percentage used when construction omits one.
pub const COMMISSION_DEFAULT: u8 = 5;

/// Creates an auction: open, with an empty ledger and an empty commission
/// pool.  The owner defaults to the creator's identity; an owner override
/// must already have passed the host's address validation.
pub fn instantiate(info: &MessageInfo, msg: InstantiateMsg) -> (auction: Auction)
    requires
        msg.commission_percent matches Some(p) ==> p <= 100,
    ensures
        auction.wf(),
        auction.bids@.len() == 0,
        auction@.closed == false,
        auction@.commission_total == 0,
        auction@.max_bid is None,
        auction@.ledger == Map::<Seq<char>, BidView>::empty(),
        auction@.owner == match msg.owner {
            Some(o) => o@,
            None => info.sender@,
        },
        auction@.commission_percent == match msg.commission_percent {
            Some(p) => p as int,
            None => COMMISSION_DEFAULT as int,
        },
{
    let owner = match msg.owner {
        Some(o) => o,
        None => info.sender.clone(),
    };
    let commission_percent = match msg.commission_percent {
        Some(p) => p,
        None => COMMISSION_DEFAULT,
    };
    Auction {
        state: State {
            closed: false,
            owner,
            commission_total: 0,
            commission_percent,
            max_bid: None,
        },
        bids: Vec::new(),
    }
}

} // verus!
