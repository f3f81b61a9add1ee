use vstd::prelude::*;

use crate::model::{
    bid_err, bid_next, close_err, find_denom, net_of, retract_err, retract_next, run, step,
    ErrKind, Event,
};
use crate::state::{AuctionModel, CoinModel};

verus! {

/// Sum of the net escrow increments of the accepted bids in `es`; only bid
/// events contribute, and each contributes `gross - floor(gross * rate / 100)`
/// exactly when it is accepted in the state it meets.
pub open spec fn accepted_net_sum(m: AuctionModel, es: Seq<Event>) -> int
    decreases es.len(),
{
    if es.len() == 0 {
        0
    } else {
        let prev = run(m, es.drop_last());
        let rest = accepted_net_sum(m, es.drop_last());
        match es.last() {
            Event::Bid { sender, funds } => {
                if bid_err(prev, sender, funds) is None {
                    rest + net_of(
                        find_denom(funds, prev.bid_asset.denom)->0.amount,
                        prev.commission,
                    )
                } else {
                    rest
                }
            },
            _ => rest,
        }
    }
}

/// LAW: over any sequence of bids by a single bidder, that bidder's escrow
/// amount grows by exactly the sum of the net increments of the accepted
/// bids — each `gross - floor(gross * rate / 100)`. Starting from a state
/// where the bidder has no entry, the amount equals that sum.
pub proof fn lemma_single_bidder_accumulation(
    m: AuctionModel,
    sender: Seq<char>,
    es: Seq<Event>,
)
    requires
        forall|i: int|
            0 <= i < es.len() ==> ((#[trigger] es[i]) matches Event::Bid { sender: s, funds: f }
                && s == sender),
    ensures
        run(m, es).ledger_amount(sender) == m.ledger_amount(sender) + accepted_net_sum(m, es),
    decreases es.len(),
{
    if es.len() > 0 {
        assert(forall|i: int|
            0 <= i < es.drop_last().len() ==> ((#[trigger] es.drop_last()[i]) matches Event::Bid {
                sender: s,
                funds: f,
            } && s == sender));
        lemma_single_bidder_accumulation(m, sender, es.drop_last());
        assert((es[es.len() - 1] matches Event::Bid { sender: s, funds: f } && s == sender));
    }
}

/// LAW: the owner can never successfully place a bid, and while bidding is
/// open the failure is `BiddingByOwner`, whatever funds are attached.
pub proof fn lemma_owner_cannot_bid(m: AuctionModel, funds: Seq<CoinModel>)
    ensures
        bid_err(m, m.owner, funds) is Some,
        m.is_open ==> bid_err(m, m.owner, funds) == Some(ErrKind::BiddingByOwner),
{
}

/// LAW: a retract is never satisfiable while bidding is open: it always
/// fails with `BiddingOpen`.
pub proof fn lemma_retract_needs_closed(m: AuctionModel, sender: Seq<char>)
    requires
        m.is_open,
    ensures
        retract_err(m, sender) == Some(ErrKind::BiddingOpen),
{
}

/// LAW: once bidding is closed it stays closed under every further event;
/// every bid then fails with `BiddingClosed`, so does the owner's repeated
/// close, and a retract never fails for openness again.
pub proof fn lemma_closed_is_terminal(
    m: AuctionModel,
    e: Event,
    sender: Seq<char>,
    funds: Seq<CoinModel>,
)
    requires
        !m.is_open,
    ensures
        !step(m, e).is_open,
        bid_err(m, sender, funds) == Some(ErrKind::BiddingClosed),
        close_err(m, m.owner) == Some(ErrKind::BiddingClosed),
        retract_err(m, sender) != Some(ErrKind::BiddingOpen),
{
}

/// LAW: a closed auction stays closed along any sequence of events.
pub proof fn lemma_closed_stays_closed(m: AuctionModel, es: Seq<Event>)
    requires
        !m.is_open,
    ensures
        !run(m, es).is_open,
    decreases es.len(),
{
    if es.len() > 0 {
        lemma_closed_stays_closed(m, es.drop_last());
        lemma_closed_is_terminal(
            run(m, es.drop_last()),
            es.last(),
            Seq::empty(),
            Seq::empty(),
        );
    }
}

/// The address the auction currently records as winning, if any.
pub open spec fn recorded_winner(m: AuctionModel) -> Option<Seq<char>> {
    match m.highest_bid {
        Some(h) => Some(h.address),
        None => None,
    }
}

/// The sender of the last bid in `es` that is accepted in the state it
/// meets, or the initially recorded winner when none is.
pub open spec fn last_accepted_bidder(m: AuctionModel, es: Seq<Event>) -> Option<Seq<char>>
    decreases es.len(),
{
    if es.len() == 0 {
        recorded_winner(m)
    } else {
        let prev = run(m, es.drop_last());
        match es.last() {
            Event::Bid { sender, funds } => {
                if bid_err(prev, sender, funds) is None {
                    Some(sender)
                } else {
                    last_accepted_bidder(m, es.drop_last())
                }
            },
            _ => last_accepted_bidder(m, es.drop_last()),
        }
    }
}

/// LAW: after any sequence of events — a close included, which never
/// touches the record — the recorded winner is the sender of the last
/// accepted bid.
pub proof fn lemma_recorded_winner_is_last_accepted(m: AuctionModel, es: Seq<Event>)
    ensures
        recorded_winner(run(m, es)) == last_accepted_bidder(m, es),
    decreases es.len(),
{
    if es.len() > 0 {
        lemma_recorded_winner_is_last_accepted(m, es.drop_last());
    }
}

/// LAW: the recorded winner can never retract, even after closing: the
/// failure is `BiddingOpen` while open and `RetractByWinner` once closed.
pub proof fn lemma_winner_cannot_retract(m: AuctionModel)
    requires
        m.highest_bid is Some,
    ensures
        retract_err(m, m.highest_bid->0.address) is Some,
        !m.is_open ==> retract_err(m, m.highest_bid->0.address) == Some(
            ErrKind::RetractByWinner,
        ),
{
}

/// LAW: a successful retract consumes the escrow entry, so a repeated
/// retract by the same sender fails with `NoBid`.
pub proof fn lemma_no_double_retract(m: AuctionModel, sender: Seq<char>)
    requires
        retract_err(m, sender) is None,
    ensures
        retract_err(retract_next(m, sender), sender) == Some(ErrKind::NoBid),
{
}

/// LAW: an accepted bid overwrites the record: its sender becomes the
/// leading bidder and the recorded amount is this bid's gross amount,
/// whatever the previous record was.
pub proof fn lemma_accepted_bid_takes_lead(
    m: AuctionModel,
    sender: Seq<char>,
    funds: Seq<CoinModel>,
)
    requires
        bid_err(m, sender, funds) is None,
    ensures
        recorded_winner(bid_next(m, sender, funds)) == Some(sender),
        bid_next(m, sender, funds).highest_amount() == find_denom(
            funds,
            m.bid_asset.denom,
        )->0.amount,
{
}

} // verus!
