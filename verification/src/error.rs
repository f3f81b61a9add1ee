use vstd::prelude::*;

use crate::model::ErrKind;

verus! {

/// Every way an auction command can fail, each carrying only what a caller
/// needs to render a message or retry with corrected inputs.
#[derive(Debug)]
pub enum ContractError {
    /// Only the owner may call the command; carries the owner's address.
    Unauthorized { owner: String },
    /// The auction is already closed.
    BiddingClosed {},
    /// The auction is still open.
    BiddingOpen {},
    /// The owner may not bid on their own auction.
    BiddingByOwner {},
    /// The attached funds carry no coin in the accepted denomination.
    InvalidDenomination { denom: String },
    /// The bid would not reach the current leading amount.
    BidTooLow { current_highest: u128 },
    /// The recorded winner may not retract escrowed funds.
    RetractByWinner {},
    /// The caller has no escrow entry to retract.
    NoBid {},
}

/// The failure class an error value belongs to.
pub open spec fn kind_of(e: ContractError) -> ErrKind {
    match e {
        ContractError::Unauthorized { .. } => ErrKind::Unauthorized,
        ContractError::BiddingClosed {} => ErrKind::BiddingClosed,
        ContractError::BiddingOpen {} => ErrKind::BiddingOpen,
        ContractError::BiddingByOwner {} => ErrKind::BiddingByOwner,
        ContractError::InvalidDenomination { .. } => ErrKind::InvalidDenomination,
        ContractError::BidTooLow { .. } => ErrKind::BidTooLow,
        ContractError::RetractByWinner {} => ErrKind::RetractByWinner,
        ContractError::NoBid {} => ErrKind::NoBid,
    }
}

impl PartialEq for ContractError {
    fn eq(&self, other: &Self) -> (r: bool) {
        match (self, other) {
            (
                ContractError::Unauthorized { owner: a },
                ContractError::Unauthorized { owner: b },
            ) => *a == *b,
            (ContractError::BiddingClosed {}, ContractError::BiddingClosed {}) => true,
            (ContractError::BiddingOpen {}, ContractError::BiddingOpen {}) => true,
            (ContractError::BiddingByOwner {}, ContractError::BiddingByOwner {}) => true,
            (
                ContractError::InvalidDenomination { denom: a },
                ContractError::InvalidDenomination { denom: b },
            ) => *a == *b,
            (
                ContractError::BidTooLow { current_highest: a },
                ContractError::BidTooLow { current_highest: b },
            ) => *a == *b,
            (ContractError::RetractByWinner {}, ContractError::RetractByWinner {}) => true,
            (ContractError::NoBid {}, ContractError::NoBid {}) => true,
            _ => false,
        }
    }
}

impl vstd::std_specs::cmp::PartialEqSpecImpl for ContractError {
    open spec fn obeys_eq_spec() -> bool {
        true
    }

    open spec fn eq_spec(&self, other: &Self) -> bool {
        match (self, other) {
            (
                ContractError::Unauthorized { owner: a },
                ContractError::Unauthorized { owner: b },
            ) => a@ == b@,
            (ContractError::BiddingClosed {}, ContractError::BiddingClosed {}) => true,
            (ContractError::BiddingOpen {}, ContractError::BiddingOpen {}) => true,
            (ContractError::BiddingByOwner {}, ContractError::BiddingByOwner {}) => true,
            (
                ContractError::InvalidDenomination { denom: a },
                ContractError::InvalidDenomination { denom: b },
            ) => a@ == b@,
            (
                ContractError::BidTooLow { current_highest: a },
                ContractError::BidTooLow { current_highest: b },
            ) => *a == *b,
            (ContractError::RetractByWinner {}, ContractError::RetractByWinner {}) => true,
            (ContractError::NoBid {}, ContractError::NoBid {}) => true,
            _ => false,
        }
    }
}

} // verus!
