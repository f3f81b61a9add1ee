use vstd::prelude::*;

use crate::state::{AuctionModel, BidModel, CoinModel};

verus! {

/// The classes of failure an auction command can report.
pub ghost enum ErrKind {
    Unauthorized,
    BiddingClosed,
    BiddingOpen,
    BiddingByOwner,
    InvalidDenomination,
    BidTooLow,
    RetractByWinner,
    NoBid,
}

/// Coin amounts are machine quantities, so their models are non-negative.
pub open spec fn coins_valid(funds: Seq<CoinModel>) -> bool {
    forall|i: int| 0 <= i < funds.len() ==> (#[trigger] funds[i]).amount >= 0
}

/// The first coin of the given denomination among attached funds, if any.
pub open spec fn find_denom(funds: Seq<CoinModel>, denom: Seq<char>) -> Option<CoinModel>
    decreases funds.len(),
{
    if funds.len() == 0 {
        None
    } else if funds[0].denom == denom {
        Some(funds[0])
    } else {
        find_denom(funds.drop_first(), denom)
    }
}

/// Commission on a gross bid: the rate is an integer percentage and the
/// division truncates, so rounding always favours the bidder.
pub open spec fn commission_of(gross: int, rate: int) -> int {
    gross * rate / 100
}

/// What a gross bid adds to the bidder's escrow once commission is taken.
pub open spec fn net_of(gross: int, rate: int) -> int {
    gross - commission_of(gross, rate)
}

/// The ledger total the bidder would reach if this bid were accepted.
/// Meaningful only when `funds` carries the configured denomination.
pub open spec fn bid_total(m: AuctionModel, sender: Seq<char>, funds: Seq<CoinModel>) -> int {
    match find_denom(funds, m.bid_asset.denom) {
        Some(f) => m.ledger_amount(sender) + net_of(f.amount, m.commission),
        None => m.ledger_amount(sender),
    }
}

/// Why a bid by `sender` with `funds` attached fails, or `None` when it is
/// accepted. The checks apply in order: the auction must be open, the owner
/// may not bid, the funds must carry the configured denomination, and the
/// resulting ledger total must not undercut the current leading bid.
pub open spec fn bid_err(m: AuctionModel, sender: Seq<char>, funds: Seq<CoinModel>) -> Option<
    ErrKind,
> {
    if !m.is_open {
        Some(ErrKind::BiddingClosed)
    } else if sender == m.owner {
        Some(ErrKind::BiddingByOwner)
    } else {
        match find_denom(funds, m.bid_asset.denom) {
            None => Some(ErrKind::InvalidDenomination),
            Some(f) => {
                if m.ledger_amount(sender) + net_of(f.amount, m.commission) < m.highest_amount() {
                    Some(ErrKind::BidTooLow)
                } else {
                    None
                }
            },
        }
    }
}

/// State after an accepted bid: the sender's escrow grows by the net
/// increment, and the leading bid becomes this bid's gross coin.
pub open spec fn bid_next(m: AuctionModel, sender: Seq<char>, funds: Seq<CoinModel>) -> AuctionModel {
    let f = find_denom(funds, m.bid_asset.denom)->0;
    AuctionModel {
        ledger: m.ledger.insert(sender, m.ledger_amount(sender) + net_of(f.amount, m.commission)),
        highest_bid: Some(
            BidModel { address: sender, bid: CoinModel { denom: f.denom, amount: f.amount } },
        ),
        ..m
    }
}

/// Why a close by `sender` fails, or `None` when it succeeds: only the owner
/// may close, and only while the auction is still open.
pub open spec fn close_err(m: AuctionModel, sender: Seq<char>) -> Option<ErrKind> {
    if sender != m.owner {
        Some(ErrKind::Unauthorized)
    } else if !m.is_open {
        Some(ErrKind::BiddingClosed)
    } else {
        None
    }
}

/// State after a successful close: bidding is shut, everything else stays.
pub open spec fn close_next(m: AuctionModel) -> AuctionModel {
    AuctionModel { is_open: false, ..m }
}

/// Why a retract by `sender` fails, or `None` when it succeeds: the auction
/// must be closed, the recorded winner may never retract, and the sender
/// must still have an escrow entry.
pub open spec fn retract_err(m: AuctionModel, sender: Seq<char>) -> Option<ErrKind> {
    if m.is_open {
        Some(ErrKind::BiddingOpen)
    } else if match m.highest_bid {
        Some(h) => sender == h.address,
        None => false,
    } {
        Some(ErrKind::RetractByWinner)
    } else if !m.ledger.contains_key(sender) {
        Some(ErrKind::NoBid)
    } else {
        None
    }
}

/// State after a successful retract: the sender's escrow entry is consumed,
/// so a repeated retract finds no entry and fails.
pub open spec fn retract_next(m: AuctionModel, sender: Seq<char>) -> AuctionModel {
    AuctionModel { ledger: m.ledger.remove(sender), ..m }
}

/// One external command, as the engine's model sees it.
pub ghost enum Event {
    Bid { sender: Seq<char>, funds: Seq<CoinModel> },
    Close { sender: Seq<char> },
    Retract { sender: Seq<char> },
}

/// An event that a host could really deliver: attached funds are machine
/// quantities, never negative.
pub open spec fn event_wf(e: Event) -> bool {
    match e {
        Event::Bid { funds, .. } => coins_valid(funds),
        Event::Close { .. } => true,
        Event::Retract { .. } => true,
    }
}

/// The state one event leads to; a rejected command changes nothing.
pub open spec fn step(m: AuctionModel, e: Event) -> AuctionModel {
    match e {
        Event::Bid { sender, funds } => {
            if bid_err(m, sender, funds) is None {
                bid_next(m, sender, funds)
            } else {
                m
            }
        },
        Event::Close { sender } => {
            if close_err(m, sender) is None {
                close_next(m)
            } else {
                m
            }
        },
        Event::Retract { sender } => {
            if retract_err(m, sender) is None {
                retract_next(m, sender)
            } else {
                m
            }
        },
    }
}

/// The state a whole sequence of events leads to.
pub open spec fn run(m: AuctionModel, es: Seq<Event>) -> AuctionModel
    decreases es.len(),
{
    if es.len() == 0 {
        m
    } else {
        step(run(m, es.drop_last()), es.last())
    }
}

/// Model-level well-formedness is preserved by every event.
pub proof fn lemma_step_preserves_wf(m: AuctionModel, e: Event)
    requires
        m.wf(),
        event_wf(e),
    ensures
        step(m, e).wf(),
{
    match e {
        Event::Bid { sender, funds } => {
            if bid_err(m, sender, funds) is None {
                let f = find_denom(funds, m.bid_asset.denom)->0;
                lemma_find_denom_found(funds, m.bid_asset.denom);
                lemma_commission_bounds(f.amount, m.commission);
                assert(m.ledger_amount(sender) >= 0);
                let m2 = bid_next(m, sender, funds);
                assert forall|a: Seq<char>| #[trigger] m2.ledger.contains_key(a) implies m2.ledger[a]
                    >= 0 by {
                    if a != sender {
                        assert(m.ledger.contains_key(a));
                    }
                }
            }
        },
        Event::Close { .. } => {},
        Event::Retract { .. } => {},
    }
}

/// Well-formedness holds along any run from a well-formed state.
pub proof fn lemma_run_preserves_wf(m: AuctionModel, es: Seq<Event>)
    requires
        m.wf(),
        forall|i: int| 0 <= i < es.len() ==> event_wf(#[trigger] es[i]),
    ensures
        run(m, es).wf(),
    decreases es.len(),
{
    if es.len() > 0 {
        assert(forall|i: int|
            0 <= i < es.drop_last().len() ==> event_wf(#[trigger] es.drop_last()[i]));
        lemma_run_preserves_wf(m, es.drop_last());
        lemma_step_preserves_wf(run(m, es.drop_last()), es.last());
    }
}

/// A found coin carries the searched denomination and stands among the
/// attached funds, so a valid attachment yields a non-negative amount.
pub proof fn lemma_find_denom_found(funds: Seq<CoinModel>, denom: Seq<char>)
    requires
        find_denom(funds, denom) is Some,
    ensures
        find_denom(funds, denom)->0.denom == denom,
        coins_valid(funds) ==> find_denom(funds, denom)->0.amount >= 0,
    decreases funds.len(),
{
    if funds.len() > 0 && funds[0].denom != denom {
        lemma_find_denom_found(funds.drop_first(), denom);
        if coins_valid(funds) {
            assert forall|i: int|
                0 <= i < funds.drop_first().len() implies (#[trigger] funds.drop_first()[i]).amount
                >= 0 by {
                assert(funds.drop_first()[i] == funds[i + 1]);
            }
        }
    }
}

/// Commission never exceeds the gross amount, and never is negative.
pub proof fn lemma_commission_bounds(gross: int, rate: int)
    requires
        gross >= 0,
        0 <= rate <= 100,
    ensures
        0 <= commission_of(gross, rate) <= gross,
        0 <= net_of(gross, rate) <= gross,
{
    assert(gross * rate >= 0) by (nonlinear_arith)
        requires
            gross >= 0,
            rate >= 0,
    ;
    assert(gross * rate <= gross * 100) by (nonlinear_arith)
        requires
            gross >= 0,
            rate <= 100,
    ;
    assert(gross * rate / 100 >= 0) by (nonlinear_arith)
        requires
            gross * rate >= 0,
    ;
    assert(gross * rate / 100 <= gross) by (nonlinear_arith)
        requires
            gross * rate <= gross * 100,
    ;
}

/// The commission of a gross amount can be computed without overflow by
/// splitting the gross into hundreds and a remainder: the quotient part is
/// exact, so only the remainder's product needs dividing.
pub proof fn lemma_commission_split(gross: int, rate: int)
    requires
        gross >= 0,
        0 <= rate <= 100,
    ensures
        commission_of(gross, rate) == (gross / 100) * rate + (gross % 100) * rate / 100,
        (gross / 100) * rate <= gross,
        (gross % 100) * rate <= 9900,
{
    let q = gross / 100;
    let r = gross % 100;
    vstd::arithmetic::div_mod::lemma_fundamental_div_mod(gross, 100);
    assert(gross == 100 * q + r);
    assert(0 <= r < 100);
    assert(q >= 0);
    vstd::arithmetic::div_mod::lemma_fundamental_div_mod(r * rate, 100);
    let rq = r * rate / 100;
    let rr = r * rate % 100;
    assert(r * rate == 100 * rq + rr);
    assert(r * rate >= 0) by (nonlinear_arith)
        requires
            r >= 0,
            rate >= 0,
    ;
    assert(r * rate <= 9900) by (nonlinear_arith)
        requires
            0 <= r < 100,
            0 <= rate <= 100,
    ;
    assert(rq >= 0 && rr >= 0 && rr < 100);
    assert(gross * rate == 100 * (q * rate + rq) + rr) by (nonlinear_arith)
        requires
            gross == 100 * q + r,
            r * rate == 100 * rq + rr,
    ;
    vstd::arithmetic::div_mod::lemma_fundamental_div_mod_converse(
        gross * rate,
        100,
        q * rate + rq,
        rr,
    );
    assert(q * rate <= q * 100) by (nonlinear_arith)
        requires
            q >= 0,
            rate <= 100,
    ;
    assert(q * 100 <= gross);
}

} // verus!
