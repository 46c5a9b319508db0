use bidding::error::ContractError;
use bidding::msg::{
    BidResp, Coin, ExecMsg, HighestResp, InstantiateMsg, MessageInfo, QueryMsg, QueryResponse,
};
use bidding::state::Auction;
use bidding::{execute, instantiate, query};

fn coins(amount: u128, denom: &str) -> Vec<Coin> {
    vec![Coin { denom: denom.to_string(), amount }]
}

fn info(sender: &str, funds: Vec<Coin>) -> MessageInfo {
    MessageInfo { sender: sender.to_string(), funds }
}

fn make_auction(creator: &str, owner: Option<&str>, commission_percent: Option<u8>) -> Auction {
    instantiate(
        &info(creator, vec![]),
        InstantiateMsg {
            owner: owner.map(|o| o.to_string()),
            commission_percent,
        },
    )
}

fn query_bid_of(auction: &Auction, address: &str) -> BidResp {
    match query(auction, QueryMsg::Bid { address: address.to_string() }) {
        QueryResponse::Bid(resp) => resp,
        _ => panic!("wrong answer variant"),
    }
}

fn query_highest_of(auction: &Auction) -> Option<HighestResp> {
    match query(auction, QueryMsg::Highest {}) {
        QueryResponse::Highest(resp) => resp,
        _ => panic!("wrong answer variant"),
    }
}

fn query_winner_of(auction: &Auction) -> Option<HighestResp> {
    match query(auction, QueryMsg::Winner {}) {
        QueryResponse::Winner(resp) => resp.winner,
        _ => panic!("wrong answer variant"),
    }
}

fn query_closed_of(auction: &Auction) -> bool {
    match query(auction, QueryMsg::Closed {}) {
        QueryResponse::Closed(resp) => resp.closed,
        _ => panic!("wrong answer variant"),
    }
}

const ATOM: &str = "ATOM";

#[test]
fn query_bid() {
    let auction = make_auction("owner", None, None);

    let resp = query_bid_of(&auction, "owner");

    assert_eq!(resp, BidResp { bid: 0 });
}

#[test]
fn query_closed() {
    let mut auction = make_auction("owner", None, None);

    assert_eq!(query_closed_of(&auction), false);

    execute(&mut auction, &info("owner", vec![]), ExecMsg::Close {}).unwrap();

    assert_eq!(query_closed_of(&auction), true);
}

#[test]
fn query_highest_bid() {
    let mut auction = make_auction("owner", None, None);

    let resp = query_highest_of(&auction);
    assert_eq!(resp, None);

    execute(&mut auction, &info("sender", coins(10, ATOM)), ExecMsg::Bid {}).unwrap();
    let resp = query_highest_of(&auction);
    assert_eq!(
        resp,
        Some(HighestResp { address: "sender".to_string(), amount: 10 })
    );

    execute(&mut auction, &info("sender2", coins(11, ATOM)), ExecMsg::Bid {}).unwrap();
    let resp = query_highest_of(&auction);
    assert_eq!(
        resp,
        Some(HighestResp { address: "sender2".to_string(), amount: 11 })
    );
}

#[test]
fn query_winner() {
    let mut auction = make_auction("owner", None, None);

    let resp = query_winner_of(&auction);
    assert_eq!(resp, None);

    execute(&mut auction, &info("sender", coins(10, ATOM)), ExecMsg::Bid {}).unwrap();
    let resp = query_winner_of(&auction);
    assert_eq!(resp, None);

    execute(&mut auction, &info("owner", vec![]), ExecMsg::Close {}).unwrap();

    let resp = query_winner_of(&auction);
    assert_eq!(
        resp,
        Some(HighestResp { address: "sender".to_string(), amount: 10 })
    );
}

#[test]
fn bid_with_funds() {
    let mut auction = make_auction("owner", None, None);

    execute(&mut auction, &info("sender", coins(5, ATOM)), ExecMsg::Bid {}).unwrap();

    let resp = query_bid_of(&auction, "sender");
    assert_eq!(resp, BidResp { bid: 5 });

    let err = execute(&mut auction, &info("owner", coins(5, ATOM)), ExecMsg::Bid {}).unwrap_err();
    assert_eq!(err, ContractError::Unauthorized {});
}

#[test]
fn bid_too_small() {
    let mut auction = make_auction("owner", None, None);

    execute(&mut auction, &info("sender", coins(10, ATOM)), ExecMsg::Bid {}).unwrap();
    let err = execute(&mut auction, &info("sender2", coins(5, ATOM)), ExecMsg::Bid {}).unwrap_err();
    assert_eq!(err, ContractError::BidTooSmall {});

    execute(&mut auction, &info("sender2", coins(11, ATOM)), ExecMsg::Bid {}).unwrap();
    let resp = query_bid_of(&auction, "sender2");
    assert_eq!(resp, BidResp { bid: 11 });

    execute(&mut auction, &info("sender", coins(2, ATOM)), ExecMsg::Bid {}).unwrap();
    let resp = query_bid_of(&auction, "sender");
    assert_eq!(resp, BidResp { bid: 12 });
}

#[test]
fn close() {
    let mut auction = make_auction("owner", None, None);
    let mut balance1: u128 = 20;
    let mut balance2: u128 = 20;

    execute(&mut auction, &info("sender1", coins(5, ATOM)), ExecMsg::Bid {}).unwrap();
    balance1 -= 5;
    execute(&mut auction, &info("sender2", coins(10, ATOM)), ExecMsg::Bid {}).unwrap();
    balance2 -= 10;
    execute(&mut auction, &info("sender1", coins(6, ATOM)), ExecMsg::Bid {}).unwrap();
    balance1 -= 6;

    let err = execute(&mut auction, &info("sender2", vec![]), ExecMsg::Close {}).unwrap_err();
    assert_eq!(err, ContractError::Unauthorized {});

    let resp = execute(&mut auction, &info("owner", vec![]), ExecMsg::Close {}).unwrap();
    for transfer in &resp.messages {
        assert_eq!(transfer.denom, ATOM.to_string());
        if transfer.to_address == "sender1" {
            balance1 += transfer.amount;
        } else if transfer.to_address == "sender2" {
            balance2 += transfer.amount;
        }
    }

    let err =
        execute(&mut auction, &info("sender1", coins(1, ATOM)), ExecMsg::Bid {}).unwrap_err();
    assert_eq!(err, ContractError::BiddingClosed {});

    let err = execute(&mut auction, &info("owner", vec![]), ExecMsg::Close {}).unwrap_err();
    assert_eq!(err, ContractError::BiddingClosed {});

    assert_eq!(balance1, 20);
    assert_eq!(balance2, 10);

    let err =
        execute(&mut auction, &info("sender1", vec![]), ExecMsg::Retract { address: None })
            .unwrap_err();
    assert_eq!(err, ContractError::BidMissing {});
}

#[test]
fn retract() {
    let mut auction = make_auction("owner", None, Some(10));
    let mut balance1: u128 = 30;
    let mut balance2: u128 = 30;
    let mut balance3: u128 = 30;
    let mut balance_receiver: u128 = 0;

    // total commission: 10+20+30 * 10% = 6
    execute(&mut auction, &info("sender1", coins(10, ATOM)), ExecMsg::Bid {}).unwrap();
    balance1 -= 10;
    execute(&mut auction, &info("sender2", coins(20, ATOM)), ExecMsg::Bid {}).unwrap();
    balance2 -= 20;
    execute(&mut auction, &info("sender3", coins(30, ATOM)), ExecMsg::Bid {}).unwrap();
    balance3 -= 30;

    let err =
        execute(&mut auction, &info("sender1", vec![]), ExecMsg::Retract { address: None })
            .unwrap_err();
    assert_eq!(err, ContractError::BiddingNotClosed {});

    // 30 initial balance - (3 commission from 30 bid) + 6 total commission
    let resp = execute(&mut auction, &info("owner", vec![]), ExecMsg::Close {}).unwrap();
    for transfer in &resp.messages {
        assert_eq!(transfer.to_address, "sender3".to_string());
        balance3 += transfer.amount;
    }
    assert_eq!(balance3, 33);

    // 30 initial balance - 1 commission from 10 bid
    let resp = execute(&mut auction, &info("sender1", vec![]), ExecMsg::Retract { address: None })
        .unwrap();
    for transfer in &resp.messages {
        assert_eq!(transfer.to_address, "sender1".to_string());
        balance1 += transfer.amount;
    }
    assert_eq!(balance1, 29);

    // 20 bid - 2 commission (custom receiver with 0 initial balance)
    let resp = execute(
        &mut auction,
        &info("sender2", vec![]),
        ExecMsg::Retract { address: Some("receiver".to_string()) },
    )
    .unwrap();
    for transfer in &resp.messages {
        assert_eq!(transfer.to_address, "receiver".to_string());
        balance_receiver += transfer.amount;
    }
    assert_eq!(balance_receiver, 18);

    let err =
        execute(&mut auction, &info("sender1", vec![]), ExecMsg::Retract { address: None })
            .unwrap_err();
    assert_eq!(err, ContractError::BidMissing {});
}
