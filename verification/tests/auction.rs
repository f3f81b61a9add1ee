use bidding::contract::{bid, close, retract};
use bidding::contract::{auction, bids, highest_bid};
use bidding::error::ContractError;
use bidding::msg::{AuctionResp, BidResp};
use bidding::state::{Auction, Coin};

const ATOM: &str = "atom";

fn coins(amount: u128, denom: &str) -> Vec<Coin> {
    vec![Coin { denom: denom.to_string(), amount }]
}

fn open_auction(sender: &str, owner: Option<&str>) -> Auction {
    bidding::contract::instantiate(
        &sender.to_string(),
        "Item".to_string(),
        Coin { denom: ATOM.to_string(), amount: 0 },
        10,
        owner.map(|o| o.to_string()),
    )
}

#[test]
fn query_open_auction() {
    let auction_state = open_auction("sender", None);

    let resp = auction(&auction_state);

    assert_eq!(
        resp,
        AuctionResp {
            commodity: "Item".to_string(),
            bid_asset: Coin { denom: ATOM.to_string(), amount: 0 },
            commission: 10,
            is_open: true,
        }
    );
}

#[test]
fn query_closed_auction() {
    let mut auction_state = open_auction("sender", Some("owner"));

    close(&mut auction_state, &"owner".to_string()).unwrap();
    let resp = auction(&auction_state);

    assert_eq!(
        resp,
        AuctionResp {
            commodity: "Item".to_string(),
            bid_asset: Coin { denom: ATOM.to_string(), amount: 0 },
            commission: 10,
            is_open: false,
        }
    );
}

#[test]
fn owner_can_not_bid() {
    let mut auction_state = open_auction("sender", Some("owner"));

    let err = bid(&mut auction_state, &"owner".to_string(), &coins(10, ATOM)).unwrap_err();

    assert_eq!(err, ContractError::BiddingByOwner {});
}

#[test]
fn bid_closed_auction() {
    let mut auction_state = open_auction("sender", Some("owner"));

    close(&mut auction_state, &"owner".to_string()).unwrap();

    let err = bid(&mut auction_state, &"bidder".to_string(), &coins(10, ATOM)).unwrap_err();

    assert_eq!(err, ContractError::BiddingClosed {});
}

#[test]
fn query_bids_by_address() {
    let mut auction_state = open_auction("sender", Some("owner"));

    bid(&mut auction_state, &"bidder".to_string(), &coins(20, ATOM)).unwrap();
    let resp = bids(&auction_state, &"bidder".to_string());

    assert_eq!(resp, Coin { denom: ATOM.to_string(), amount: 18 });
}

#[test]
fn query_highest_bid() {
    let mut auction_state = open_auction("sender", Some("owner"));

    bid(&mut auction_state, &"bidder_0".to_string(), &coins(10, ATOM)).unwrap();
    bid(&mut auction_state, &"bidder_1".to_string(), &coins(20, ATOM)).unwrap();

    let resp = highest_bid(&auction_state);

    assert_eq!(
        resp,
        BidResp {
            address: "bidder_1".to_string(),
            bid: Coin { denom: ATOM.to_string(), amount: 20 },
        }
    );
}

#[test]
fn retract_by_winner() {
    let mut auction_state = open_auction("sender", Some("owner"));

    bid(&mut auction_state, &"bidder".to_string(), &coins(10, ATOM)).unwrap();
    bid(&mut auction_state, &"winner".to_string(), &coins(20, ATOM)).unwrap();
    close(&mut auction_state, &"owner".to_string()).unwrap();

    let err = retract(&mut auction_state, &"winner".to_string(), Some("winner".to_string()))
        .unwrap_err();

    assert_eq!(err, ContractError::RetractByWinner {});
}

#[test]
fn retract_by_bidder() {
    let mut auction_state = open_auction("sender", Some("owner"));

    bid(&mut auction_state, &"bidder".to_string(), &coins(10, ATOM)).unwrap();
    bid(&mut auction_state, &"winner".to_string(), &coins(20, ATOM)).unwrap();
    close(&mut auction_state, &"owner".to_string()).unwrap();
    let resp =
        retract(&mut auction_state, &"bidder".to_string(), Some("bidder".to_string())).unwrap();

    // The non-winner gets back exactly the escrowed net amount:
    // 10 - floor(10 * 10 / 100) = 9.
    assert_eq!(resp.messages.len(), 1);
    assert_eq!(resp.messages[0].to_address, "bidder".to_string());
    assert_eq!(resp.messages[0].amount, Coin { denom: ATOM.to_string(), amount: 9 });
}
