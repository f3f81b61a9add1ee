use vstd::prelude::*;

use crate::state::{Coin, CoinModel};

verus! {

/// Everything instantiation takes: the commodity label, the accepted bid
/// asset (only its denomination matters), the commission percentage, and an
/// optional owner override.
#[derive(Debug)]
pub struct InstantiateMsg {
    pub commodity: String,
    pub bid_asset: Coin,
    pub commission: u128,
    pub owner: Option<String>,
}

/// The state-mutating commands.
#[derive(Debug)]
pub enum ExecMsg {
    Bid {},
    Close {},
    Retract { receiver: Option<String> },
}

/// The read-only queries.
#[derive(Debug)]
pub enum QueryMsg {
    Auction {},
    Bids { address: String },
    HighestBid {},
    Winner {},
}

/// Answer to the auction-info query.
#[derive(Debug)]
pub struct AuctionResp {
    pub commodity: String,
    pub bid_asset: Coin,
    pub commission: u128,
    pub is_open: bool,
}

/// Answer to the highest-bid and winner queries; the address is the empty
/// string and the amount zero when no record exists.
#[derive(Debug)]
pub struct BidResp {
    pub address: String,
    pub bid: Coin,
}

/// The answer a query yields, one variant per query.
#[derive(Debug)]
pub enum QueryResponse {
    Auction(AuctionResp),
    Bids(Coin),
    HighestBid(BidResp),
    Winner(BidResp),
}

/// One fund-transfer instruction for the host to execute.
#[derive(Debug)]
pub struct BankTransfer {
    pub to_address: String,
    pub amount: Coin,
}

/// Mathematical value of a transfer instruction.
#[verifier::ext_equal]
pub ghost struct TransferModel {
    pub to_address: Seq<char>,
    pub amount: CoinModel,
}

impl View for BankTransfer {
    type V = TransferModel;

    open spec fn view(&self) -> TransferModel {
        TransferModel { to_address: self.to_address@, amount: self.amount@ }
    }
}

impl DeepView for BankTransfer {
    type V = TransferModel;

    open spec fn deep_view(&self) -> TransferModel {
        self@
    }
}

/// One key-value pair of the audit trail; informational only.
#[derive(Debug)]
pub struct Attribute {
    pub key: String,
    pub value: String,
}

/// Mathematical value of an audit attribute.
#[verifier::ext_equal]
pub ghost struct AttributeModel {
    pub key: Seq<char>,
    pub value: Seq<char>,
}

impl View for Attribute {
    type V = AttributeModel;

    open spec fn view(&self) -> AttributeModel {
        AttributeModel { key: self.key@, value: self.value@ }
    }
}

impl DeepView for Attribute {
    type V = AttributeModel;

    open spec fn deep_view(&self) -> AttributeModel {
        self@
    }
}

/// What a successful command hands back to the host: transfer instructions
/// to execute and audit attributes to record.
#[derive(Debug)]
pub struct Response {
    pub messages: Vec<BankTransfer>,
    pub attributes: Vec<Attribute>,
}

impl PartialEq for Coin {
    fn eq(&self, other: &Self) -> (r: bool) {
        self.denom == other.denom && self.amount == other.amount
    }
}

impl vstd::std_specs::cmp::PartialEqSpecImpl for Coin {
    open spec fn obeys_eq_spec() -> bool {
        true
    }

    open spec fn eq_spec(&self, other: &Self) -> bool {
        self@ == other@
    }
}

impl PartialEq for AuctionResp {
    fn eq(&self, other: &Self) -> (r: bool) {
        self.commodity == other.commodity && self.bid_asset == other.bid_asset
            && self.commission == other.commission && self.is_open == other.is_open
    }
}

impl vstd::std_specs::cmp::PartialEqSpecImpl for AuctionResp {
    open spec fn obeys_eq_spec() -> bool {
        true
    }

    open spec fn eq_spec(&self, other: &Self) -> bool {
        self.commodity@ == other.commodity@ && self.bid_asset@ == other.bid_asset@
            && self.commission == other.commission && self.is_open == other.is_open
    }
}

impl PartialEq for BidResp {
    fn eq(&self, other: &Self) -> (r: bool) {
        self.address == other.address && self.bid == other.bid
    }
}

impl vstd::std_specs::cmp::PartialEqSpecImpl for BidResp {
    open spec fn obeys_eq_spec() -> bool {
        true
    }

    open spec fn eq_spec(&self, other: &Self) -> bool {
        self.address@ == other.address@ && self.bid@ == other.bid@
    }
}

} // verus!
