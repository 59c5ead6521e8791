//! The reasons for which a call on the distributor can fail.

use vstd::prelude::*;
use vstd::string::*;

verus! {

/// Why a call failed. A failed call leaves the distributor as it was.
#[derive(Clone, Copy, Debug, PartialEq, Eq, Structural)]
pub enum Error {
    /// A zone or a voucher was looked up and is not there.
    NotFound,
    /// A zone or a vendor is registered a second time, or a voucher would be
    /// issued under the identity of a stored one.
    AlreadyExists,
    /// A voucher asks for more than its zone has left.
    InsufficientBudget,
    /// The voucher has been redeemed before.
    AlreadyRedeemed,
    /// The voucher's expiry lies in the past.
    Expired,
    /// An amount that no voucher or budget can carry. Amounts are unsigned
    /// here, so no operation of this library returns it; it is kept for
    /// hosts that accept signed amounts at their boundary.
    InvalidAmount,
    /// The proof could not be fetched.
    TransportError,
    /// The proof was fetched and is empty.
    EmptyProof,
}

impl Error {
    /// The text that stands for each error at the string-typed boundary.
    pub open spec fn spec_message(self) -> Seq<char> {
        match self {
            Error::NotFound => "Not found"@,
            Error::AlreadyExists => "Already exists"@,
            Error::InsufficientBudget => "Insufficient budget"@,
            Error::AlreadyRedeemed => "Voucher already redeemed"@,
            Error::Expired => "Voucher expired"@,
            Error::InvalidAmount => "Invalid amount"@,
            Error::TransportError => "MCP HTTP Error"@,
            Error::EmptyProof => "Empty response body"@,
        }
    }

    /// The error as a descriptive string.
    pub fn message(&self) -> (text: String)
        ensures
            text@ == self.spec_message(),
    {
        match self {
            Error::NotFound => String::from_str("Not found"),
            Error::AlreadyExists => String::from_str("Already exists"),
            Error::InsufficientBudget => String::from_str("Insufficient budget"),
            Error::AlreadyRedeemed => String::from_str("Voucher already redeemed"),
            Error::Expired => String::from_str("Voucher expired"),
            Error::InvalidAmount => String::from_str("Invalid amount"),
            Error::TransportError => String::from_str("MCP HTTP Error"),
            Error::EmptyProof => String::from_str("Empty response body"),
        }
    }
}

} // verus!
