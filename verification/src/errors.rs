use vstd::prelude::*;

verus! {

/// Why an instruction refuses to run.
#[derive(Clone, Copy, Debug, PartialEq, Eq, Structural)]
pub enum DonationError {
    /// The donated amount is zero.
    InvalidAmount,
    /// There is nothing to withdraw above the rent-exempt reserve.
    NoFundsForWithdrawal,
    /// The donator cannot pay the donation (and the commission, if due).
    InsufficientFundsForTransaction,
    /// The campaign no longer accepts donations.
    CampaignFinished,
    /// The accounts given for a campaign do not belong together.
    CampaignMismatch,
}

/// The message that goes with each error.
pub open spec fn error_message(e: DonationError) -> Seq<char> {
    match e {
        DonationError::InvalidAmount => "Amount should be more than zero!"@,
        DonationError::NoFundsForWithdrawal => "The donation bank is empty!"@,
        DonationError::InsufficientFundsForTransaction => "The donation bank is empty!"@,
        DonationError::CampaignFinished => "The speciffied campaign is finished!"@,
        DonationError::CampaignMismatch => "The entered data for speciffied campaign is not correct!"@,
    }
}

impl DonationError {
    /// The message shown to users for this error.
    pub fn message(&self) -> (msg: &'static str)
        ensures
            msg@ == error_message(*self),
    {
        match self {
            DonationError::InvalidAmount => "Amount should be more than zero!",
            DonationError::NoFundsForWithdrawal => "The donation bank is empty!",
            DonationError::InsufficientFundsForTransaction => "The donation bank is empty!",
            DonationError::CampaignFinished => "The speciffied campaign is finished!",
            DonationError::CampaignMismatch => "The entered data for speciffied campaign is not correct!",
        }
    }
}

} // verus!
