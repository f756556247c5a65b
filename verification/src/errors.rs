//! The failures a ledger operation can report.
//!
//! Every failure is a local, recoverable condition handed back to the caller
//! as a typed value; a rejected operation never leaves stored data changed,
//! except for the one intended side effect of lazy expiry.

use vstd::prelude::*;
use vstd::string::StringExecFns;

verus! {

/// Why a ledger operation was rejected.
#[derive(Clone, Copy, PartialEq, Eq, Structural, Debug)]
pub enum CampaignError {
    /// The referenced campaign id does not exist.
    NotFound,
    /// The campaign is already marked closed and takes no contributions.
    Inactive,
    /// The campaign's deadline has newly passed during this contribution
    /// attempt; reported only on the call that flips the campaign inactive.
    Expired,
    /// A success judgment was requested before the deadline.
    StillActive,
}

impl CampaignError {
    /// The descriptive text of this error.
    pub open spec fn message_spec(self) -> Seq<char> {
        match self {
            CampaignError::NotFound => "Campaign not found"@,
            CampaignError::Inactive => "Campaign is not active"@,
            CampaignError::Expired => "Campaign has ended"@,
            CampaignError::StillActive => "Campaign is still active"@,
        }
    }

    /// Renders this error as its descriptive text.
    pub fn message(&self) -> (r: String)
        ensures
            r@ == self.message_spec(),
    {
        match self {
            CampaignError::NotFound => String::from_str("Campaign not found"),
            CampaignError::Inactive => String::from_str("Campaign is not active"),
            CampaignError::Expired => String::from_str("Campaign has ended"),
            CampaignError::StillActive => String::from_str("Campaign is still active"),
        }
    }
}

} // verus!
