use vstd::prelude::*;

verus! {

/// A quantity of a single native asset, identified by its denomination.
#[derive(Debug)]
pub struct Coin {
    pub denom: String,
    pub amount: u128,
}

/// Mathematical value of a `Coin`: the denomination's characters and the
/// exact (unbounded) amount.
#[verifier::ext_equal]
pub ghost struct CoinModel {
    pub denom: Seq<char>,
    pub amount: int,
}

impl View for Coin {
    type V = CoinModel;

    open spec fn view(&self) -> CoinModel {
        CoinModel { denom: self.denom@, amount: self.amount as int }
    }
}

impl DeepView for Coin {
    type V = CoinModel;

    open spec fn deep_view(&self) -> CoinModel {
        self@
    }
}

/// The current leading bid: the bidder's address and the gross coin of the
/// bid event that took the lead.
#[derive(Debug)]
pub struct Bid {
    pub address: String,
    pub bid: Coin,
}

/// Mathematical value of a leading-bid record.
#[verifier::ext_equal]
pub ghost struct BidModel {
    pub address: Seq<char>,
    pub bid: CoinModel,
}

impl View for Bid {
    type V = BidModel;

    open spec fn view(&self) -> BidModel {
        BidModel { address: self.address@, bid: self.bid@ }
    }
}

/// One bidder's escrow entry: the net funds (commission already deducted)
/// the contract currently holds for that address.
#[derive(Debug)]
pub struct LedgerEntry {
    pub address: String,
    pub coin: Coin,
}

/// The escrow ledger a sequence of entries denotes: address to net amount.
/// Later entries win, so on a sequence with unique addresses every entry is
/// authoritative.
pub open spec fn ledger_map(s: Seq<LedgerEntry>) -> Map<Seq<char>, int>
    decreases s.len(),
{
    if s.len() == 0 {
        Map::empty()
    } else {
        ledger_map(s.drop_last()).insert(s.last().address@, s.last().coin.amount as int)
    }
}

/// No two ledger entries share an address.
pub open spec fn unique_addresses(s: Seq<LedgerEntry>) -> bool {
    forall|i: int, j: int|
        0 <= i < j < s.len() ==> s[i].address@ != s[j].address@
}

/// Whole persisted state of one auction instance.
#[derive(Debug)]
pub struct Auction {
    pub owner: String,
    pub commodity: String,
    pub bid_asset: Coin,
    pub commission: u128,
    pub is_open: bool,
    pub bids: Vec<LedgerEntry>,
    pub highest_bid: Option<Bid>,
}

/// Mathematical value of an auction: the ledger as a map, everything else
/// as plain mathematical values.
#[verifier::ext_equal]
pub ghost struct AuctionModel {
    pub owner: Seq<char>,
    pub commodity: Seq<char>,
    pub bid_asset: CoinModel,
    pub commission: int,
    pub is_open: bool,
    pub ledger: Map<Seq<char>, int>,
    pub highest_bid: Option<BidModel>,
}

impl View for Auction {
    type V = AuctionModel;

    open spec fn view(&self) -> AuctionModel {
        AuctionModel {
            owner: self.owner@,
            commodity: self.commodity@,
            bid_asset: self.bid_asset@,
            commission: self.commission as int,
            is_open: self.is_open,
            ledger: ledger_map(self.bids@),
            highest_bid: match self.highest_bid {
                Some(b) => Some(b@),
                None => None,
            },
        }
    }
}

impl AuctionModel {
    /// The net amount the ledger holds for `addr`; zero when the address
    /// never bid.
    pub open spec fn ledger_amount(self, addr: Seq<char>) -> int {
        if self.ledger.contains_key(addr) {
            self.ledger[addr]
        } else {
            0
        }
    }

    /// The gross amount of the current leading bid; zero when none exists.
    pub open spec fn highest_amount(self) -> int {
        match self.highest_bid {
            Some(h) => h.bid.amount,
            None => 0,
        }
    }

    /// Model-level well-formedness: the commission rate is a percentage,
    /// escrow amounts are non-negative, and a recorded leading bid always
    /// has a ledger entry, in the configured denomination.
    pub open spec fn wf(self) -> bool {
        &&& 0 <= self.commission <= 100
        &&& forall|a: Seq<char>| #[trigger] self.ledger.contains_key(a) ==> self.ledger[a] >= 0
        &&& match self.highest_bid {
            Some(h) => {
                &&& self.ledger.contains_key(h.address)
                &&& h.bid.denom == self.bid_asset.denom
                &&& h.bid.amount >= 0
            },
            None => true,
        }
    }
}

impl Auction {
    /// Well-formedness of the stored state: unique ledger addresses, every
    /// entry in the configured denomination, and a well-formed model.
    pub open spec fn wf(self) -> bool {
        &&& unique_addresses(self.bids@)
        &&& forall|i: int|
            0 <= i < self.bids@.len() ==> (#[trigger] self.bids@[i]).coin.denom@
                == self.bid_asset.denom@
        &&& self.commission <= 100
        &&& self@.wf()
    }
}

/// Every amount a ledger denotes is non-negative.
pub proof fn lemma_ledger_map_nonneg(s: Seq<LedgerEntry>)
    ensures
        forall|a: Seq<char>| #[trigger] ledger_map(s).contains_key(a) ==> ledger_map(s)[a] >= 0,
    decreases s.len(),
{
    if s.len() > 0 {
        lemma_ledger_map_nonneg(s.drop_last());
        assert forall|a: Seq<char>| #[trigger] ledger_map(s).contains_key(a) implies ledger_map(
            s,
        )[a] >= 0 by {
            if a != s.last().address@ {
                assert(ledger_map(s.drop_last()).contains_key(a));
            }
        }
    }
}

/// An address that no entry carries is not in the ledger's domain.
pub proof fn lemma_ledger_map_absent(s: Seq<LedgerEntry>, a: Seq<char>)
    requires
        forall|i: int| 0 <= i < s.len() ==> (#[trigger] s[i]).address@ != a,
    ensures
        !ledger_map(s).contains_key(a),
    decreases s.len(),
{
    if s.len() > 0 {
        assert(forall|i: int|
            0 <= i < s.drop_last().len() ==> (#[trigger] s.drop_last()[i]).address@ != a);
        lemma_ledger_map_absent(s.drop_last(), a);
    }
}

/// An entry with no later duplicate is what the ledger holds for its address.
pub proof fn lemma_ledger_map_index(s: Seq<LedgerEntry>, i: int)
    requires
        0 <= i < s.len(),
        forall|j: int| i < j < s.len() ==> (#[trigger] s[j]).address@ != s[i].address@,
    ensures
        ledger_map(s).contains_key(s[i].address@),
        ledger_map(s)[s[i].address@] == s[i].coin.amount as int,
    decreases s.len(),
{
    if i == s.len() - 1 {
    } else {
        assert(s.drop_last()[i] == s[i]);
        lemma_ledger_map_index(s.drop_last(), i);
    }
}

/// Appending a fresh entry inserts its amount into the ledger.
pub proof fn lemma_ledger_map_push(s: Seq<LedgerEntry>, e: LedgerEntry)
    ensures
        ledger_map(s.push(e)) == ledger_map(s).insert(e.address@, e.coin.amount as int),
{
    assert(s.push(e).drop_last() =~= s);
    assert(s.push(e).last() == e);
}

/// Overwriting the entry at `i` with one for the same address updates that
/// address's amount and nothing else.
pub proof fn lemma_ledger_map_update(s: Seq<LedgerEntry>, i: int, e: LedgerEntry)
    requires
        0 <= i < s.len(),
        s[i].address@ == e.address@,
        unique_addresses(s),
    ensures
        ledger_map(s.update(i, e)) == ledger_map(s).insert(e.address@, e.coin.amount as int),
    decreases s.len(),
{
    if i == s.len() - 1 {
        assert(s.update(i, e).drop_last() =~= s.drop_last());
        assert(ledger_map(s).insert(e.address@, e.coin.amount as int)
            =~= ledger_map(s.drop_last()).insert(e.address@, e.coin.amount as int));
    } else {
        assert(s.update(i, e).drop_last() =~= s.drop_last().update(i, e));
        assert(s.drop_last()[i] == s[i]);
        assert(unique_addresses(s.drop_last()));
        lemma_ledger_map_update(s.drop_last(), i, e);
        assert(s.update(i, e).last() == s.last());
        // The final entry's address differs from `e`'s, so the two inserts
        // land on different keys and commute.
        assert(s[s.len() - 1].address@ != e.address@);
        assert(ledger_map(s.drop_last()).insert(e.address@, e.coin.amount as int).insert(
            s.last().address@,
            s.last().coin.amount as int,
        ) =~= ledger_map(s.drop_last()).insert(s.last().address@, s.last().coin.amount as int)
            .insert(e.address@, e.coin.amount as int));
    }
}

/// Removing the entry at `i` removes exactly its address from the ledger.
pub proof fn lemma_ledger_map_remove(s: Seq<LedgerEntry>, i: int)
    requires
        0 <= i < s.len(),
        unique_addresses(s),
    ensures
        ledger_map(s.remove(i)) == ledger_map(s).remove(s[i].address@),
    decreases s.len(),
{
    if i == s.len() - 1 {
        assert(s.remove(i) =~= s.drop_last());
        assert(forall|j: int|
            0 <= j < s.drop_last().len() ==> (#[trigger] s.drop_last()[j]).address@
                != s[i].address@);
        lemma_ledger_map_absent(s.drop_last(), s[i].address@);
        assert(ledger_map(s).remove(s[i].address@) =~= ledger_map(s.drop_last()));
    } else {
        assert(s.remove(i).drop_last() =~= s.drop_last().remove(i));
        assert(s.drop_last()[i] == s[i]);
        assert(unique_addresses(s.drop_last()));
        lemma_ledger_map_remove(s.drop_last(), i);
        assert(s.remove(i).last() == s.last());
        assert(s[s.len() - 1].address@ != s[i].address@);
        assert(ledger_map(s.drop_last()).remove(s[i].address@).insert(
            s.last().address@,
            s.last().coin.amount as int,
        ) =~= ledger_map(s.drop_last()).insert(s.last().address@, s.last().coin.amount as int)
            .remove(s[i].address@));
    }
}

/// Index of the entry for `addr`, if one exists.
pub fn ledger_find(bids: &Vec<LedgerEntry>, addr: &String) -> (r: Option<usize>)
    ensures
        match r {
            Some(i) => i < bids@.len() && bids@[i as int].address@ == addr@,
            None => forall|i: int|
                0 <= i < bids@.len() ==> (#[trigger] bids@[i]).address@ != addr@,
        },
{
    let mut i: usize = 0;
    while i < bids.len()
        invariant
            i <= bids@.len(),
            forall|j: int| 0 <= j < i ==> (#[trigger] bids@[j]).address@ != addr@,
        decreases bids@.len() - i,
    {
        if bids[i].address == *addr {
            return Some(i);
        }
        i = i + 1;
    }
    None
}

} // verus!
