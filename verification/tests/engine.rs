use bidding::contract::{bid, close, retract};
use bidding::contract::{bids, highest_bid, winner};
use bidding::error::ContractError;
use bidding::msg::{BidResp, ExecMsg, QueryMsg, QueryResponse};
use bidding::state::{Auction, Coin};
use bidding::{execute, query};

const ATOM: &str = "atom";

fn coins(amount: u128, denom: &str) -> Vec<Coin> {
    vec![Coin { denom: denom.to_string(), amount }]
}

fn open_auction(sender: &str, owner: Option<&str>, commission: u128) -> Auction {
    bidding::contract::instantiate(
        &sender.to_string(),
        "Item".to_string(),
        Coin { denom: ATOM.to_string(), amount: 0 },
        commission,
        owner.map(|o| o.to_string()),
    )
}

#[test]
fn owner_defaults_to_sender() {
    let mut auction_state = open_auction("sender", None, 10);

    let err = bid(&mut auction_state, &"sender".to_string(), &coins(10, ATOM)).unwrap_err();

    assert_eq!(err, ContractError::BiddingByOwner {});
}

#[test]
fn bid_commission_transfer_and_audit() {
    let mut auction_state = open_auction("sender", Some("owner"), 10);

    let resp = bid(&mut auction_state, &"bidder".to_string(), &coins(20, ATOM)).unwrap();

    // Commission floor(20 * 10 / 100) = 2 goes to the owner at once.
    assert_eq!(resp.messages.len(), 1);
    assert_eq!(resp.messages[0].to_address, "owner".to_string());
    assert_eq!(resp.messages[0].amount, Coin { denom: ATOM.to_string(), amount: 2 });
    assert_eq!(resp.attributes.len(), 3);
    assert_eq!(resp.attributes[0].key, "action".to_string());
    assert_eq!(resp.attributes[0].value, "bid".to_string());
    assert_eq!(resp.attributes[1].key, "sender".to_string());
    assert_eq!(resp.attributes[1].value, "bidder".to_string());
    assert_eq!(resp.attributes[2].key, "commission".to_string());
    assert_eq!(resp.attributes[2].value, "2".to_string());

    // The escrow keeps the net 18 while the record holds the gross 20.
    let escrow = bids(&auction_state, &"bidder".to_string());
    assert_eq!(escrow, Coin { denom: ATOM.to_string(), amount: 18 });
    let top = highest_bid(&auction_state);
    assert_eq!(top.bid, Coin { denom: ATOM.to_string(), amount: 20 });
}

#[test]
fn bid_commission_rounds_down() {
    let mut auction_state = open_auction("sender", Some("owner"), 7);

    let resp = bid(&mut auction_state, &"bidder".to_string(), &coins(12345, ATOM)).unwrap();

    // floor(12345 * 7 / 100) = 864; the escrow keeps 12345 - 864 = 11481.
    assert_eq!(resp.messages[0].amount, Coin { denom: ATOM.to_string(), amount: 864 });
    assert_eq!(resp.attributes[2].value, "864".to_string());
    let escrow = bids(&auction_state, &"bidder".to_string());
    assert_eq!(escrow, Coin { denom: ATOM.to_string(), amount: 11481 });
}

#[test]
fn bid_accumulates_per_bidder() {
    let mut auction_state = open_auction("sender", Some("owner"), 10);

    bid(&mut auction_state, &"bidder".to_string(), &coins(10, ATOM)).unwrap();
    bid(&mut auction_state, &"bidder".to_string(), &coins(20, ATOM)).unwrap();

    // (10 - 1) + (20 - 2) = 27, while the recorded highest is the last
    // accepted bid's gross amount.
    let escrow = bids(&auction_state, &"bidder".to_string());
    assert_eq!(escrow, Coin { denom: ATOM.to_string(), amount: 27 });
    let top = highest_bid(&auction_state);
    assert_eq!(top.address, "bidder".to_string());
    assert_eq!(top.bid, Coin { denom: ATOM.to_string(), amount: 20 });
}

#[test]
fn bid_invalid_denomination() {
    let mut auction_state = open_auction("sender", Some("owner"), 10);

    let err = bid(&mut auction_state, &"bidder".to_string(), &coins(10, "btc")).unwrap_err();

    assert_eq!(err, ContractError::InvalidDenomination { denom: ATOM.to_string() });
}

#[test]
fn bid_too_low() {
    let mut auction_state = open_auction("sender", Some("owner"), 10);

    bid(&mut auction_state, &"bidder_0".to_string(), &coins(20, ATOM)).unwrap();
    let err = bid(&mut auction_state, &"bidder_1".to_string(), &coins(10, ATOM)).unwrap_err();

    assert_eq!(err, ContractError::BidTooLow { current_highest: 20 });
}

#[test]
fn close_by_non_owner() {
    let mut auction_state = open_auction("sender", Some("owner"), 10);

    let err = close(&mut auction_state, &"intruder".to_string()).unwrap_err();

    assert_eq!(err, ContractError::Unauthorized { owner: "owner".to_string() });
}

#[test]
fn close_twice() {
    let mut auction_state = open_auction("sender", Some("owner"), 10);

    close(&mut auction_state, &"owner".to_string()).unwrap();
    let err = close(&mut auction_state, &"owner".to_string()).unwrap_err();

    assert_eq!(err, ContractError::BiddingClosed {});
}

#[test]
fn close_settles_winner_escrow() {
    let mut auction_state = open_auction("sender", Some("owner"), 10);

    bid(&mut auction_state, &"bidder".to_string(), &coins(10, ATOM)).unwrap();
    bid(&mut auction_state, &"winner".to_string(), &coins(20, ATOM)).unwrap();
    let resp = close(&mut auction_state, &"owner".to_string()).unwrap();

    // The winner's net escrow (20 - 2 = 18) moves to the owner.
    assert_eq!(resp.messages.len(), 1);
    assert_eq!(resp.messages[0].to_address, "owner".to_string());
    assert_eq!(resp.messages[0].amount, Coin { denom: ATOM.to_string(), amount: 18 });
    assert_eq!(resp.attributes[0].key, "winner".to_string());
    assert_eq!(resp.attributes[0].value, "winner".to_string());
}

#[test]
fn close_without_bids() {
    let mut auction_state = open_auction("sender", Some("owner"), 10);

    let resp = close(&mut auction_state, &"owner".to_string()).unwrap();

    assert_eq!(resp.messages.len(), 0);
    assert_eq!(resp.attributes[0].key, "winner".to_string());
    assert_eq!(resp.attributes[0].value, "None".to_string());
}

#[test]
fn retract_open_auction() {
    let mut auction_state = open_auction("sender", Some("owner"), 10);

    bid(&mut auction_state, &"bidder".to_string(), &coins(10, ATOM)).unwrap();
    let err = retract(&mut auction_state, &"bidder".to_string(), None).unwrap_err();

    assert_eq!(err, ContractError::BiddingOpen {});
}

#[test]
fn retract_without_bid() {
    let mut auction_state = open_auction("sender", Some("owner"), 10);

    close(&mut auction_state, &"owner".to_string()).unwrap();
    let err = retract(&mut auction_state, &"stranger".to_string(), None).unwrap_err();

    assert_eq!(err, ContractError::NoBid {});
}

#[test]
fn retract_twice_fails() {
    let mut auction_state = open_auction("sender", Some("owner"), 10);

    bid(&mut auction_state, &"bidder".to_string(), &coins(10, ATOM)).unwrap();
    bid(&mut auction_state, &"winner".to_string(), &coins(20, ATOM)).unwrap();
    close(&mut auction_state, &"owner".to_string()).unwrap();

    let resp = retract(&mut auction_state, &"bidder".to_string(), None).unwrap();
    assert_eq!(resp.messages[0].amount, Coin { denom: ATOM.to_string(), amount: 9 });
    assert_eq!(resp.messages[0].to_address, "bidder".to_string());

    // The escrow entry was consumed: a second retract finds no bid.
    let err = retract(&mut auction_state, &"bidder".to_string(), None).unwrap_err();
    assert_eq!(err, ContractError::NoBid {});
}

#[test]
fn retract_to_alternate_receiver() {
    let mut auction_state = open_auction("sender", Some("owner"), 10);

    bid(&mut auction_state, &"bidder".to_string(), &coins(10, ATOM)).unwrap();
    bid(&mut auction_state, &"winner".to_string(), &coins(20, ATOM)).unwrap();
    close(&mut auction_state, &"owner".to_string()).unwrap();

    let resp =
        retract(&mut auction_state, &"bidder".to_string(), Some("friend".to_string())).unwrap();

    assert_eq!(resp.messages[0].to_address, "friend".to_string());
    assert_eq!(resp.messages[0].amount, Coin { denom: ATOM.to_string(), amount: 9 });
}

#[test]
fn query_bids_no_bids() {
    let auction_state = open_auction("sender", Some("owner"), 10);

    let resp = bids(&auction_state, &"nobody".to_string());

    assert_eq!(resp, Coin { denom: ATOM.to_string(), amount: 0 });
}

#[test]
fn query_highest_bid_empty() {
    let auction_state = open_auction("sender", Some("owner"), 10);

    let resp = highest_bid(&auction_state);

    assert_eq!(
        resp,
        BidResp { address: "".to_string(), bid: Coin { denom: ATOM.to_string(), amount: 0 } }
    );
}

#[test]
fn query_winner_gated_by_phase() {
    let mut auction_state = open_auction("sender", Some("owner"), 10);

    bid(&mut auction_state, &"bidder".to_string(), &coins(20, ATOM)).unwrap();

    // While open, the winner query mirrors the highest bid.
    let open_resp = winner(&auction_state);
    assert_eq!(open_resp.address, "bidder".to_string());
    assert_eq!(open_resp.bid, Coin { denom: ATOM.to_string(), amount: 20 });

    // Once closed, it answers with the empty placeholder.
    close(&mut auction_state, &"owner".to_string()).unwrap();
    let closed_resp = winner(&auction_state);
    assert_eq!(
        closed_resp,
        BidResp { address: "".to_string(), bid: Coin { denom: ATOM.to_string(), amount: 0 } }
    );
}

#[test]
fn execute_dispatches_commands() {
    let mut auction_state = open_auction("sender", Some("owner"), 10);

    execute(
        &mut auction_state,
        &"bidder".to_string(),
        &coins(10, ATOM),
        ExecMsg::Bid {},
    )
    .unwrap();
    let unauthorized =
        execute(&mut auction_state, &"intruder".to_string(), &Vec::new(), ExecMsg::Close {})
            .unwrap_err();
    assert_eq!(unauthorized, ContractError::Unauthorized { owner: "owner".to_string() });
    execute(&mut auction_state, &"owner".to_string(), &Vec::new(), ExecMsg::Close {}).unwrap();
    let err = execute(
        &mut auction_state,
        &"bidder".to_string(),
        &Vec::new(),
        ExecMsg::Retract { receiver: None },
    )
    .unwrap_err();

    assert_eq!(err, ContractError::RetractByWinner {});
}

#[test]
fn query_dispatches_queries() {
    let mut auction_state = open_auction("sender", Some("owner"), 10);
    bid(&mut auction_state, &"bidder".to_string(), &coins(20, ATOM)).unwrap();

    match query(&auction_state, QueryMsg::Auction {}) {
        QueryResponse::Auction(resp) => assert!(resp.is_open),
        _ => panic!("wrong answer variant"),
    }
    match query(&auction_state, QueryMsg::Bids { address: "bidder".to_string() }) {
        QueryResponse::Bids(coin) => {
            assert_eq!(coin, Coin { denom: ATOM.to_string(), amount: 18 })
        },
        _ => panic!("wrong answer variant"),
    }
    match query(&auction_state, QueryMsg::HighestBid {}) {
        QueryResponse::HighestBid(resp) => assert_eq!(resp.address, "bidder".to_string()),
        _ => panic!("wrong answer variant"),
    }
    match query(&auction_state, QueryMsg::Winner {}) {
        QueryResponse::Winner(resp) => assert_eq!(resp.address, "bidder".to_string()),
        _ => panic!("wrong answer variant"),
    }
}
