//! Why an auction call was turned down.

use vstd::prelude::*;
use vstd::string::StringExecFns;

verus! {

/// The reason a call failed. A failed call leaves the auction as it was.
#[derive(Debug, PartialEq, Eq)]
pub enum AuctionError {
    /// The caller lacks the role the call needs, or asked for the secret
    /// while the reserve was not met.
    Unauthorized,
    /// The auction has been started already.
    AlreadyStarted,
    /// The auction has not been started.
    NotStarted,
    /// No auction has been configured.
    NotConfigured,
    /// The auction is still running.
    AuctionNotEnded,
    /// The auction is over and takes no more bids.
    AuctionEnded,
    /// The payment is missing, empty or in another denomination.
    InvalidFunds,
    /// The admin tried to bid.
    AdminCannotBid,
    /// The highest bid is below the reserve.
    ReserveNotMet,
    /// The admin has settled before.
    AlreadySettled,
    /// The highest bidder asked for a refund.
    CannotWithdrawAsWinner,
    /// The caller holds no refundable balance.
    NothingToWithdraw,
    /// The verified account is not the highest bidder.
    NotWinner,
    /// The credential check failed; the text is the verifier's own.
    IdentityVerificationFailed(String),
}

impl Clone for AuctionError {
    fn clone(&self) -> (copy: AuctionError)
        ensures
            copy == *self,
    {
        match self {
            AuctionError::Unauthorized => AuctionError::Unauthorized,
            AuctionError::AlreadyStarted => AuctionError::AlreadyStarted,
            AuctionError::NotStarted => AuctionError::NotStarted,
            AuctionError::NotConfigured => AuctionError::NotConfigured,
            AuctionError::AuctionNotEnded => AuctionError::AuctionNotEnded,
            AuctionError::AuctionEnded => AuctionError::AuctionEnded,
            AuctionError::InvalidFunds => AuctionError::InvalidFunds,
            AuctionError::AdminCannotBid => AuctionError::AdminCannotBid,
            AuctionError::ReserveNotMet => AuctionError::ReserveNotMet,
            AuctionError::AlreadySettled => AuctionError::AlreadySettled,
            AuctionError::CannotWithdrawAsWinner => AuctionError::CannotWithdrawAsWinner,
            AuctionError::NothingToWithdraw => AuctionError::NothingToWithdraw,
            AuctionError::NotWinner => AuctionError::NotWinner,
            AuctionError::IdentityVerificationFailed(reason) => {
                AuctionError::IdentityVerificationFailed(reason.clone())
            },
        }
    }
}

impl AuctionError {
    /// The text shown to a caller for this error.
    pub open spec fn message_spec(self) -> Seq<char> {
        match self {
            AuctionError::Unauthorized => "Unauthorized"@,
            AuctionError::AlreadyStarted => "Auction already started"@,
            AuctionError::NotStarted => "Auction not started"@,
            AuctionError::NotConfigured => "Auction not configured"@,
            AuctionError::AuctionNotEnded => "Auction has not ended"@,
            AuctionError::AuctionEnded => "Auction has ended"@,
            AuctionError::InvalidFunds => "Invalid funds"@,
            AuctionError::AdminCannotBid => "Admin cannot bid"@,
            AuctionError::ReserveNotMet => "Reserve price not met"@,
            AuctionError::AlreadySettled => "Auction already settled"@,
            AuctionError::CannotWithdrawAsWinner => "Winner cannot withdraw"@,
            AuctionError::NothingToWithdraw => "Nothing to withdraw"@,
            AuctionError::NotWinner => "Not the winner"@,
            AuctionError::IdentityVerificationFailed(reason) => reason@,
        }
    }

    /// The text shown to a caller for this error.
    pub fn message(&self) -> (text: String)
        ensures
            text@ == self.message_spec(),
    {
        match self {
            AuctionError::Unauthorized => String::from_str("Unauthorized"),
            AuctionError::AlreadyStarted => String::from_str("Auction already started"),
            AuctionError::NotStarted => String::from_str("Auction not started"),
            AuctionError::NotConfigured => String::from_str("Auction not configured"),
            AuctionError::AuctionNotEnded => String::from_str("Auction has not ended"),
            AuctionError::AuctionEnded => String::from_str("Auction has ended"),
            AuctionError::InvalidFunds => String::from_str("Invalid funds"),
            AuctionError::AdminCannotBid => String::from_str("Admin cannot bid"),
            AuctionError::ReserveNotMet => String::from_str("Reserve price not met"),
            AuctionError::AlreadySettled => String::from_str("Auction already settled"),
            AuctionError::CannotWithdrawAsWinner => String::from_str("Winner cannot withdraw"),
            AuctionError::NothingToWithdraw => String::from_str("Nothing to withdraw"),
            AuctionError::NotWinner => String::from_str("Not the winner"),
            AuctionError::IdentityVerificationFailed(reason) => reason.clone(),
        }
    }
}

} // verus!
