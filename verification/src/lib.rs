pub mod contract;
pub mod decimal;
pub mod error;
pub mod laws;
pub mod model;
pub mod msg;
pub mod state;

use vstd::prelude::*;

use crate::contract::{
    auction_info_post, bid_post, bids_post, close_post, highest_bid_post, retract_post,
    winner_post,
};
use crate::error::ContractError;
use crate::model::{bid_err, bid_total};
use crate::msg::{ExecMsg, InstantiateMsg, QueryMsg, QueryResponse, Response};
use crate::state::{Auction, Coin};

verus! {

/// Entry point for instantiation: unpacks the message and sets the fresh
/// auction state up, resolving the owner to the override or the caller.
pub fn instantiate(sender: &String, msg: InstantiateMsg) -> (a: Auction)
    requires
        msg.commission <= 100,
    ensures
        a.wf(),
        a@.owner == match msg.owner {
            Some(o) => o@,
            None => sender@,
        },
        a@.commodity == msg.commodity@,
        a@.bid_asset == msg.bid_asset@,
        a@.commission == msg.commission as int,
        a@.is_open,
        a@.ledger == Map::<Seq<char>, int>::empty(),
        a@.highest_bid is None,
{
    contract::instantiate(sender, msg.commodity, msg.bid_asset, msg.commission, msg.owner)
}

/// Entry point for the commands: dispatches on the message and meets the
/// dispatched command's contract.
pub fn execute(
    auction: &mut Auction,
    sender: &String,
    funds: &Vec<Coin>,
    msg: ExecMsg,
) -> (r: Result<Response, ContractError>)
    requires
        old(auction).wf(),
        msg is Bid && bid_err(old(auction)@, sender@, funds.deep_view()) is None ==> bid_total(
            old(auction)@,
            sender@,
            funds.deep_view(),
        ) <= u128::MAX,
    ensures
        final(auction).wf(),
        match msg {
            ExecMsg::Bid {} => bid_post(
                *old(auction),
                *final(auction),
                sender@,
                funds.deep_view(),
                r,
            ),
            ExecMsg::Close {} => close_post(*old(auction), *final(auction), sender@, r),
            ExecMsg::Retract { receiver } => retract_post(
                *old(auction),
                *final(auction),
                sender@,
                receiver,
                r,
            ),
        },
{
    match msg {
        ExecMsg::Bid {} => contract::bid(auction, sender, funds),
        ExecMsg::Close {} => contract::close(auction, sender),
        ExecMsg::Retract { receiver } => contract::retract(auction, sender, receiver),
    }
}

/// Entry point for the queries: dispatches on the message and answers with
/// the matching variant, each pinned by its query's contract.
pub fn query(a: &Auction, msg: QueryMsg) -> (r: QueryResponse)
    requires
        a.wf(),
    ensures
        match msg {
            QueryMsg::Auction {} => r matches QueryResponse::Auction(resp) && auction_info_post(
                *a,
                resp,
            ),
            QueryMsg::Bids { address } => r matches QueryResponse::Bids(coin) && bids_post(
                *a,
                address@,
                coin,
            ),
            QueryMsg::HighestBid {} => r matches QueryResponse::HighestBid(resp)
                && highest_bid_post(*a, resp),
            QueryMsg::Winner {} => r matches QueryResponse::Winner(resp) && winner_post(*a, resp),
        },
{
    match msg {
        QueryMsg::Auction {} => QueryResponse::Auction(contract::auction(a)),
        QueryMsg::Bids { address } => QueryResponse::Bids(contract::bids(a, &address)),
        QueryMsg::HighestBid {} => QueryResponse::HighestBid(contract::highest_bid(a)),
        QueryMsg::Winner {} => QueryResponse::Winner(contract::winner(a)),
    }
}

} // verus!
