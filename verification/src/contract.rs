use vstd::prelude::*;

use crate::decimal::{spec_decimal, u128_to_decimal};
use crate::error::{kind_of, ContractError};
use crate::model::{
    bid_err, bid_next, bid_total, close_err, close_next, commission_of, find_denom,
    lemma_commission_bounds, lemma_commission_split, retract_err, retract_next,
};
use crate::msg::{Attribute, AttributeModel, AuctionResp, BankTransfer, BidResp, Response,
    TransferModel};
use crate::state::{
    ledger_find, lemma_ledger_map_absent, lemma_ledger_map_index, lemma_ledger_map_push,
    lemma_ledger_map_remove, lemma_ledger_map_update, Auction, Bid, Coin, CoinModel, LedgerEntry,
};

verus! {

/// Sets up a fresh auction: the given configuration, bidding open, no
/// escrow and no leading bid. The owner is the explicit override when one
/// is given, otherwise the caller.
pub fn instantiate(
    sender: &String,
    commodity: String,
    bid_asset: Coin,
    commission: u128,
    owner: Option<String>,
) -> (a: Auction)
    requires
        commission <= 100,
    ensures
        a.wf(),
        a@.owner == match owner {
            Some(o) => o@,
            None => sender@,
        },
        a@.commodity == commodity@,
        a@.bid_asset == bid_asset@,
        a@.commission == commission as int,
        a@.is_open,
        a@.ledger == Map::<Seq<char>, int>::empty(),
        a@.highest_bid is None,
{
    let owner_addr: String = match owner {
        Some(o) => o,
        None => sender.clone(),
    };
    Auction {
        owner: owner_addr,
        commodity,
        bid_asset,
        commission,
        is_open: true,
        bids: Vec::new(),
        highest_bid: None,
    }
}

/// What the auction-info query answers.
pub open spec fn auction_info_post(a: Auction, resp: AuctionResp) -> bool {
    &&& resp.commodity@ == a@.commodity
    &&& resp.bid_asset@ == a@.bid_asset
    &&& resp.commission == a.commission
    &&& resp.is_open == a.is_open
}

/// Reports the configuration and whether bidding is still open.
pub fn auction(a: &Auction) -> (resp: AuctionResp)
    ensures
        auction_info_post(*a, resp),
{
    AuctionResp {
        commodity: a.commodity.clone(),
        bid_asset: Coin { denom: a.bid_asset.denom.clone(), amount: a.bid_asset.amount },
        commission: a.commission,
        is_open: a.is_open,
    }
}

/// What the bids-by-address query answers: the address's escrow amount, or
/// zero when it never bid, always in the configured denomination.
pub open spec fn bids_post(a: Auction, address: Seq<char>, r: Coin) -> bool {
    &&& r@.amount == a@.ledger_amount(address)
    &&& r@.denom == a@.bid_asset.denom
}

/// Reports the escrowed net amount of one address; never an error.
pub fn bids(a: &Auction, address: &String) -> (r: Coin)
    requires
        a.wf(),
    ensures
        bids_post(*a, address@, r),
{
    match ledger_find(&a.bids, address) {
        Some(i) => {
            proof {
                lemma_ledger_map_index(a.bids@, i as int);
            }
            Coin { denom: a.bids[i].coin.denom.clone(), amount: a.bids[i].coin.amount }
        },
        None => {
            proof {
                lemma_ledger_map_absent(a.bids@, address@);
            }
            Coin { denom: a.bid_asset.denom.clone(), amount: 0 }
        },
    }
}

/// What the highest-bid query answers: the leading record, or the empty
/// placeholder (empty address, zero coin in the configured denomination).
pub open spec fn highest_bid_post(a: Auction, r: BidResp) -> bool {
    match a@.highest_bid {
        Some(h) => r.address@ == h.address && r.bid@ == h.bid,
        None => r.address@ == Seq::<char>::empty() && r.bid@ == (CoinModel {
            denom: a@.bid_asset.denom,
            amount: 0,
        }),
    }
}

/// Reports the current leading bid, whatever the auction's phase.
pub fn highest_bid(a: &Auction) -> (r: BidResp)
    ensures
        highest_bid_post(*a, r),
{
    match &a.highest_bid {
        Some(b) => BidResp {
            address: b.address.clone(),
            bid: Coin { denom: b.bid.denom.clone(), amount: b.bid.amount },
        },
        None => BidResp {
            address: String::new(),
            bid: Coin { denom: a.bid_asset.denom.clone(), amount: 0 },
        },
    }
}

/// What the winner query answers: the leading record while bidding is
/// still open, and the empty placeholder once the auction is closed or
/// when no bid exists.
pub open spec fn winner_post(a: Auction, r: BidResp) -> bool {
    match a@.highest_bid {
        Some(h) => {
            if a@.is_open {
                r.address@ == h.address && r.bid@ == h.bid
            } else {
                r.address@ == Seq::<char>::empty() && r.bid@ == (CoinModel {
                    denom: a@.bid_asset.denom,
                    amount: 0,
                })
            }
        },
        None => r.address@ == Seq::<char>::empty() && r.bid@ == (CoinModel {
            denom: a@.bid_asset.denom,
            amount: 0,
        }),
    }
}

/// Reports the leading bid only while the auction is open.
pub fn winner(a: &Auction) -> (r: BidResp)
    ensures
        winner_post(*a, r),
{
    if a.is_open {
        match &a.highest_bid {
            Some(b) => {
                return BidResp {
                    address: b.address.clone(),
                    bid: Coin { denom: b.bid.denom.clone(), amount: b.bid.amount },
                };
            },
            None => {},
        }
    }
    BidResp { address: String::new(), bid: Coin { denom: a.bid_asset.denom.clone(), amount: 0 } }
}

/// Index of the first attached coin in the wanted denomination, if any.
fn find_coin(funds: &Vec<Coin>, denom: &String) -> (r: Option<usize>)
    ensures
        match r {
            Some(i) => i < funds@.len() && find_denom(funds.deep_view(), denom@) == Some(
                funds@[i as int]@,
            ),
            None => find_denom(funds.deep_view(), denom@) is None,
        },
{
    let ghost fv = funds.deep_view();
    proof {
        assert(fv.skip(0) =~= fv);
    }
    let mut i: usize = 0;
    while i < funds.len()
        invariant
            i <= funds@.len(),
            fv == funds.deep_view(),
            find_denom(fv, denom@) == find_denom(fv.skip(i as int), denom@),
        decreases funds@.len() - i,
    {
        if funds[i].denom == *denom {
            proof {
                assert(fv.skip(i as int)[0] == fv[i as int]);
            }
            return Some(i);
        }
        proof {
            assert(fv.skip(i as int).drop_first() =~= fv.skip(i as int + 1));
        }
        i = i + 1;
    }
    proof {
        assert(fv.skip(i as int) =~= Seq::<CoinModel>::empty());
    }
    None
}

/// What the bid command guarantees: on success the state moves to
/// `bid_next`, one commission transfer to the owner is issued, and the
/// audit trail names the action, the sender and the commission; on failure
/// the state is untouched and the error is exactly what `bid_err` assigns
/// to the inputs.
pub open spec fn bid_post(
    pre: Auction,
    post: Auction,
    sender: Seq<char>,
    funds: Seq<CoinModel>,
    r: Result<Response, ContractError>,
) -> bool {
    match r {
        Ok(resp) => {
            let f = find_denom(funds, pre@.bid_asset.denom)->0;
            let com = commission_of(f.amount, pre@.commission);
            &&& bid_err(pre@, sender, funds) is None
            &&& post@ == bid_next(pre@, sender, funds)
            &&& resp.messages.deep_view() == seq![
                TransferModel {
                    to_address: pre@.owner,
                    amount: CoinModel { denom: pre@.bid_asset.denom, amount: com },
                },
            ]
            &&& resp.attributes.deep_view() == seq![
                AttributeModel { key: "action"@, value: "bid"@ },
                AttributeModel { key: "sender"@, value: sender },
                AttributeModel { key: "commission"@, value: spec_decimal(com) },
            ]
        },
        Err(e) => {
            &&& post == pre
            &&& bid_err(pre@, sender, funds) == Some(kind_of(e))
            &&& match e {
                ContractError::BidTooLow { current_highest } => current_highest as int
                    == pre@.highest_amount(),
                ContractError::InvalidDenomination { denom } => denom@ == pre@.bid_asset.denom,
                _ => true,
            }
        },
    }
}

/// Places a bid: the attached coin in the configured denomination is taken
/// gross, the commission is skimmed for the owner, and the remainder is
/// added to the sender's escrow, which must reach the current leading
/// amount for the bid to be accepted.
pub fn bid(auction: &mut Auction, sender: &String, funds: &Vec<Coin>) -> (r: Result<
    Response,
    ContractError,
>)
    requires
        old(auction).wf(),
        bid_err(old(auction)@, sender@, funds.deep_view()) is None ==> bid_total(
            old(auction)@,
            sender@,
            funds.deep_view(),
        ) <= u128::MAX,
    ensures
        final(auction).wf(),
        bid_post(*old(auction), *final(auction), sender@, funds.deep_view(), r),
{
    let ghost pre = *old(auction);
    let ghost fv = funds.deep_view();
    if !auction.is_open {
        return Err(ContractError::BiddingClosed {});
    }
    if *sender == auction.owner {
        return Err(ContractError::BiddingByOwner {});
    }
    let fi: usize = match find_coin(funds, &auction.bid_asset.denom) {
        Some(i) => i,
        None => {
            return Err(ContractError::InvalidDenomination {
                denom: auction.bid_asset.denom.clone(),
            });
        },
    };
    let gross: u128 = funds[fi].amount;
    proof {
        crate::model::lemma_find_denom_found(fv, pre@.bid_asset.denom);
        lemma_commission_split(gross as int, pre.commission as int);
        lemma_commission_bounds(gross as int, pre.commission as int);
    }
    let com: u128 = gross / 100 * auction.commission + gross % 100 * auction.commission / 100;
    assert(com as int == commission_of(gross as int, pre@.commission));
    let net: u128 = gross - com;
    let found = ledger_find(&auction.bids, sender);
    let prior: u128 = match found {
        Some(i) => {
            proof {
                lemma_ledger_map_index(auction.bids@, i as int);
            }
            auction.bids[i].coin.amount
        },
        None => {
            proof {
                lemma_ledger_map_absent(auction.bids@, sender@);
            }
            0
        },
    };
    assert(prior as int == pre@.ledger_amount(sender@));
    let h: u128 = match &auction.highest_bid {
        Some(b) => b.bid.amount,
        None => 0,
    };
    assert(h as int == pre@.highest_amount());
    if prior < h && net < h - prior {
        return Err(ContractError::BidTooLow { current_highest: h });
    }
    assert(prior + net >= h);
    assert(bid_err(pre@, sender@, fv) is None);
    let total: u128 = prior + net;
    let entry = LedgerEntry {
        address: sender.clone(),
        coin: Coin { denom: funds[fi].denom.clone(), amount: total },
    };
    match found {
        Some(i) => {
            proof {
                lemma_ledger_map_update(auction.bids@, i as int, entry);
            }
            auction.bids.set(i, entry);
        },
        None => {
            proof {
                lemma_ledger_map_push(auction.bids@, entry);
            }
            auction.bids.push(entry);
        },
    }
    auction.highest_bid = Some(
        Bid { address: sender.clone(), bid: Coin { denom: funds[fi].denom.clone(), amount: gross } },
    );
    proof {
        assert(auction@ =~= bid_next(pre@, sender@, fv));
        crate::state::lemma_ledger_map_nonneg(auction.bids@);
        assert(auction.wf());
    }
    let mut messages: Vec<BankTransfer> = Vec::new();
    messages.push(
        BankTransfer {
            to_address: auction.owner.clone(),
            amount: Coin { denom: auction.bid_asset.denom.clone(), amount: com },
        },
    );
    let mut attributes: Vec<Attribute> = Vec::new();
    attributes.push(
        Attribute { key: String::from_str("action"), value: String::from_str("bid") },
    );
    attributes.push(Attribute { key: String::from_str("sender"), value: sender.clone() });
    attributes.push(
        Attribute { key: String::from_str("commission"), value: u128_to_decimal(com) },
    );
    proof {
        assert(messages.deep_view() =~= seq![
            TransferModel {
                to_address: pre@.owner,
                amount: CoinModel { denom: pre@.bid_asset.denom, amount: com as int },
            },
        ]);
        assert(attributes.deep_view() =~= seq![
            AttributeModel { key: "action"@, value: "bid"@ },
            AttributeModel { key: "sender"@, value: sender@ },
            AttributeModel { key: "commission"@, value: spec_decimal(com as int) },
        ]);
    }
    Ok(Response { messages, attributes })
}

/// What the close command guarantees: on success bidding is shut and, when
/// a leading bid exists, the winner's whole escrow is sent to the owner and
/// the audit trail names the winner; on failure nothing changes.
pub open spec fn close_post(
    pre: Auction,
    post: Auction,
    sender: Seq<char>,
    r: Result<Response, ContractError>,
) -> bool {
    match r {
        Ok(resp) => {
            &&& close_err(pre@, sender) is None
            &&& post@ == close_next(pre@)
            &&& match pre@.highest_bid {
                Some(h) => {
                    &&& resp.messages.deep_view() == seq![
                        TransferModel {
                            to_address: pre@.owner,
                            amount: CoinModel {
                                denom: pre@.bid_asset.denom,
                                amount: pre@.ledger[h.address],
                            },
                        },
                    ]
                    &&& resp.attributes.deep_view() == seq![
                        AttributeModel { key: "winner"@, value: h.address },
                        AttributeModel { key: "action"@, value: "close"@ },
                        AttributeModel { key: "sender"@, value: sender },
                        AttributeModel { key: "bidding"@, value: "closed"@ },
                    ]
                },
                None => {
                    &&& resp.messages.deep_view() == Seq::<TransferModel>::empty()
                    &&& resp.attributes.deep_view() == seq![
                        AttributeModel { key: "winner"@, value: "None"@ },
                        AttributeModel { key: "action"@, value: "close"@ },
                        AttributeModel { key: "sender"@, value: sender },
                        AttributeModel { key: "bidding"@, value: "closed"@ },
                    ]
                },
            }
        },
        Err(e) => {
            &&& post == pre
            &&& close_err(pre@, sender) == Some(kind_of(e))
            &&& match e {
                ContractError::Unauthorized { owner } => owner@ == pre@.owner,
                _ => true,
            }
        },
    }
}

/// Closes the auction: only the owner may, only once. The winner's escrow
/// (if any bid was placed) is settled to the owner; the winner's ledger
/// entry always exists, so the settlement lookup cannot fail.
pub fn close(auction: &mut Auction, sender: &String) -> (r: Result<Response, ContractError>)
    requires
        old(auction).wf(),
    ensures
        final(auction).wf(),
        close_post(*old(auction), *final(auction), sender@, r),
{
    let ghost pre = *old(auction);
    if *sender != auction.owner {
        return Err(ContractError::Unauthorized { owner: auction.owner.clone() });
    }
    if !auction.is_open {
        return Err(ContractError::BiddingClosed {});
    }
    auction.is_open = false;
    proof {
        assert(auction@ =~= close_next(pre@));
    }
    let mut messages: Vec<BankTransfer> = Vec::new();
    let mut attributes: Vec<Attribute> = Vec::new();
    match &auction.highest_bid {
        Some(w) => {
            let i: usize = match ledger_find(&auction.bids, &w.address) {
                Some(i) => i,
                None => {
                    proof {
                        lemma_ledger_map_absent(auction.bids@, w.address@);
                    }
                    unreached()
                },
            };
            proof {
                lemma_ledger_map_index(auction.bids@, i as int);
            }
            messages.push(
                BankTransfer {
                    to_address: auction.owner.clone(),
                    amount: Coin {
                        denom: auction.bids[i].coin.denom.clone(),
                        amount: auction.bids[i].coin.amount,
                    },
                },
            );
            attributes.push(
                Attribute { key: String::from_str("winner"), value: w.address.clone() },
            );
        },
        None => {
            attributes.push(
                Attribute { key: String::from_str("winner"), value: String::from_str("None") },
            );
        },
    }
    attributes.push(
        Attribute { key: String::from_str("action"), value: String::from_str("close") },
    );
    attributes.push(Attribute { key: String::from_str("sender"), value: sender.clone() });
    attributes.push(
        Attribute { key: String::from_str("bidding"), value: String::from_str("closed") },
    );
    proof {
        match pre@.highest_bid {
            Some(h) => {
                assert(messages.deep_view() =~= seq![
                    TransferModel {
                        to_address: pre@.owner,
                        amount: CoinModel {
                            denom: pre@.bid_asset.denom,
                            amount: pre@.ledger[h.address],
                        },
                    },
                ]);
                assert(attributes.deep_view() =~= seq![
                    AttributeModel { key: "winner"@, value: h.address },
                    AttributeModel { key: "action"@, value: "close"@ },
                    AttributeModel { key: "sender"@, value: sender@ },
                    AttributeModel { key: "bidding"@, value: "closed"@ },
                ]);
            },
            None => {
                assert(messages.deep_view() =~= Seq::<TransferModel>::empty());
                assert(attributes.deep_view() =~= seq![
                    AttributeModel { key: "winner"@, value: "None"@ },
                    AttributeModel { key: "action"@, value: "close"@ },
                    AttributeModel { key: "sender"@, value: sender@ },
                    AttributeModel { key: "bidding"@, value: "closed"@ },
                ]);
            },
        }
    }
    Ok(Response { messages, attributes })
}

/// What the retract command guarantees: on success the sender's whole
/// escrow entry is consumed and sent to the chosen receiver (the sender by
/// default); on failure nothing changes. The audit trail mirrors the
/// transfer's receiver.
pub open spec fn retract_post(
    pre: Auction,
    post: Auction,
    sender: Seq<char>,
    receiver: Option<String>,
    r: Result<Response, ContractError>,
) -> bool {
    let rcv = match receiver {
        Some(x) => x@,
        None => sender,
    };
    match r {
        Ok(resp) => {
            &&& retract_err(pre@, sender) is None
            &&& post@ == retract_next(pre@, sender)
            &&& resp.messages.deep_view() == seq![
                TransferModel {
                    to_address: rcv,
                    amount: CoinModel { denom: pre@.bid_asset.denom, amount: pre@.ledger[sender] },
                },
            ]
            &&& resp.attributes.deep_view() == seq![
                AttributeModel { key: "action"@, value: "retract"@ },
                AttributeModel { key: "sender"@, value: rcv },
            ]
        },
        Err(e) => {
            &&& post == pre
            &&& retract_err(pre@, sender) == Some(kind_of(e))
        },
    }
}

/// Withdraws the caller's escrow after closing: never for the recorded
/// winner, and only once — the entry is removed, so a second retract finds
/// no bid.
pub fn retract(auction: &mut Auction, sender: &String, receiver: Option<String>) -> (r: Result<
    Response,
    ContractError,
>)
    requires
        old(auction).wf(),
    ensures
        final(auction).wf(),
        retract_post(*old(auction), *final(auction), sender@, receiver, r),
{
    let ghost pre = *old(auction);
    if auction.is_open {
        return Err(ContractError::BiddingOpen {});
    }
    match &auction.highest_bid {
        Some(w) => {
            if *sender == w.address {
                return Err(ContractError::RetractByWinner {});
            }
        },
        None => {},
    }
    let i: usize = match ledger_find(&auction.bids, sender) {
        Some(i) => i,
        None => {
            proof {
                lemma_ledger_map_absent(auction.bids@, sender@);
            }
            return Err(ContractError::NoBid {});
        },
    };
    proof {
        lemma_ledger_map_index(auction.bids@, i as int);
        lemma_ledger_map_remove(auction.bids@, i as int);
    }
    let ghost rcvv = match &receiver {
        Some(x) => x@,
        None => sender@,
    };
    let rcv: String = match receiver {
        Some(x) => x,
        None => sender.clone(),
    };
    let entry = auction.bids.remove(i);
    proof {
        assert(auction@ =~= retract_next(pre@, sender@));
        crate::state::lemma_ledger_map_nonneg(auction.bids@);
        assert forall|p: int, q: int|
            0 <= p < q < auction.bids@.len() implies auction.bids@[p].address@
            != auction.bids@[q].address@ by {
            assert(auction.bids@[p] == if p < i as int {
                pre.bids@[p]
            } else {
                pre.bids@[p + 1]
            });
            assert(auction.bids@[q] == if q < i as int {
                pre.bids@[q]
            } else {
                pre.bids@[q + 1]
            });
        }
        assert(auction.wf());
    }
    let mut messages: Vec<BankTransfer> = Vec::new();
    messages.push(BankTransfer { to_address: rcv.clone(), amount: entry.coin });
    let mut attributes: Vec<Attribute> = Vec::new();
    attributes.push(
        Attribute { key: String::from_str("action"), value: String::from_str("retract") },
    );
    attributes.push(Attribute { key: String::from_str("sender"), value: rcv });
    proof {
        assert(messages.deep_view() =~= seq![
            TransferModel {
                to_address: rcvv,
                amount: CoinModel { denom: pre@.bid_asset.denom, amount: pre@.ledger[sender@] },
            },
        ]);
        assert(attributes.deep_view() =~= seq![
            AttributeModel { key: "action"@, value: "retract"@ },
            AttributeModel { key: "sender"@, value: rcvv },
        ]);
    }
    Ok(Response { messages, attributes })
}

} // verus!
