//! The state machine of a disaster-relief aid distributor: zones with
//! budgets, registered vendors, vouchers that are issued and redeemed, and
//! beneficiaries whose eligibility an oracle has confirmed.
//!
//! The library keeps no ledger, reads no clock and fetches nothing. Its host
//! does: it hands each call the block timestamp, and hands over what the
//! ledger or the oracle's transport answered, as plain values.

pub mod error;
pub mod modules;
pub mod records;
pub mod state;
pub mod string_map;
pub mod types;

use crate::error::Error;
use crate::modules::utils::{timestamp_value, voucher_id_of};
use crate::state::{AidDistributorState, DistributorView};
use crate::types::{VoucherStatus, VoucherView};
use vstd::prelude::*;
use vstd::string::*;

verus! {

/// The name of the token that the host's ledger is created with.
pub const TOKEN_NAME: &'static str = "AidUSDC";

/// The symbol of that token.
pub const TOKEN_SYMBOL: &'static str = "USDC";

/// The supply that the host mints into its ledger at genesis.
pub const GENESIS_SUPPLY: u64 = 1_000_000_000_000;

/// What a failed fetch of a proof is reported as: the transport's complaint
/// behind the error's own text.
pub open spec fn transport_message(complaint: Seq<char>) -> Seq<char> {
    Error::TransportError.spec_message() + ": "@ + complaint
}

/// The entry points of the distributor, as its host offers them. Each routes
/// one call to one component and reports a failure as the error's text; a
/// failed call leaves the state as it was.
pub trait AidDistributor: Sized {
    /// What the state stands for.
    spec fn model(&self) -> DistributorView;

    /// Whether the state is well formed. Every entry point keeps it so.
    spec fn valid(&self) -> bool;

    /// The state at genesis: all four maps empty.
    fn new() -> (result: Result<Self, String>)
        ensures
            result matches Ok(state) && state.valid() && state.model() == DistributorView::empty(),
    ;

    /// Registers a zone with its first budget.
    fn add_disaster_zone(&mut self, zone_id: String, name: String, initial_budget: u64) -> (result:
        Result<(), String>)
        requires
            old(self).valid(),
        ensures
            final(self).valid(),
            old(self).model().zones.contains_key(zone_id@) ==> {
                &&& result matches Err(reason)
                &&& reason@ == Error::AlreadyExists.spec_message()
                &&& final(self).model() == old(self).model()
            },
            !old(self).model().zones.contains_key(zone_id@) ==> {
                &&& result is Ok
                &&& final(self).model() == old(self).model().with_zone(zone_id@, name@, initial_budget)
            },
    ;

    /// Adds to the budget of a zone.
    fn allocate_budget(&mut self, zone_id: String, amount: u64) -> (result: Result<(), String>)
        requires
            old(self).valid(),
            old(self).model().zones.contains_key(zone_id@) ==> old(self).model().zones[zone_id@]
                .budget_allocated_total + amount <= u64::MAX,
        ensures
            final(self).valid(),
            !old(self).model().zones.contains_key(zone_id@) ==> {
                &&& result matches Err(reason)
                &&& reason@ == Error::NotFound.spec_message()
                &&& final(self).model() == old(self).model()
            },
            old(self).model().zones.contains_key(zone_id@) ==> {
                &&& result is Ok
                &&& final(self).model() == old(self).model().with_allocation(zone_id@, amount)
            },
    ;

    /// Registers a vendor.
    fn register_vendor(&mut self, vendor_addr: String, category: String) -> (result: Result<
        (),
        String,
    >)
        requires
            old(self).valid(),
        ensures
            final(self).valid(),
            old(self).model().vendors.contains_key(vendor_addr@) ==> {
                &&& result matches Err(reason)
                &&& reason@ == Error::AlreadyExists.spec_message()
                &&& final(self).model() == old(self).model()
            },
            !old(self).model().vendors.contains_key(vendor_addr@) ==> {
                &&& result is Ok
                &&& final(self).model() == old(self).model().with_vendor(vendor_addr@, category@)
            },
    ;

    /// Issues a voucher at the given block timestamp and returns its
    /// identity. An identity that a stored voucher has is refused with the
    /// text of `AlreadyExists`: no stored voucher is replaced.
    fn issue_voucher(
        &mut self,
        beneficiary_id: String,
        zone_id: String,
        amount: u64,
        expiry_days: u64,
        block_timestamp: String,
    ) -> (result: Result<String, String>)
        requires
            old(self).valid(),
            old(self).model().issuable(
                zone_id@,
                amount,
                voucher_id_of(zone_id@, beneficiary_id@, block_timestamp@),
            ) is Ok ==> timestamp_value(block_timestamp@) + expiry_days <= u64::MAX,
        ensures
            final(self).valid(),
            match old(self).model().issuable(
                zone_id@,
                amount,
                voucher_id_of(zone_id@, beneficiary_id@, block_timestamp@),
            ) {
                Err(e) => {
                    &&& result matches Err(reason)
                    &&& reason@ == e.spec_message()
                    &&& final(self).model() == old(self).model()
                },
                Ok(_) => {
                    &&& result matches Ok(voucher_id)
                    &&& voucher_id@ == voucher_id_of(zone_id@, beneficiary_id@, block_timestamp@)
                    &&& final(self).model() == old(self).model().with_voucher(
                        VoucherView {
                            voucher_id: voucher_id@,
                            beneficiary_id: beneficiary_id@,
                            zone_id: zone_id@,
                            amount,
                            expiry_timestamp: (timestamp_value(block_timestamp@) + expiry_days) as u64,
                            status: VoucherStatus::Issued,
                        },
                    )
                    &&& !old(self).model().vouchers.contains_key(voucher_id@)
                    &&& final(self).model().vouchers.len() == old(self).model().vouchers.len() + 1
                    &&& forall|id: Seq<char>| #[trigger]
                        old(self).model().vouchers.contains_key(id)
                            ==> final(self).model().vouchers[id] == old(self).model().vouchers[id]
                },
            },
    ;

    /// Redeems a voucher at the given block timestamp. `transfer` is what
    /// the ledger answered when asked to pay the voucher's amount out; it
    /// counts only where the voucher can be redeemed.
    ///
    /// A voucher that cannot be redeemed fails with the reason. One that can
    /// fails with the ledger's own reason where the transfer failed, and is
    /// recorded as redeemed where it succeeded.
    fn redeem_voucher(&mut self, voucher_id: String, block_timestamp: String, transfer: Result<
        (),
        String,
    >) -> (result: Result<(), String>)
        requires
            old(self).valid(),
        ensures
            final(self).valid(),
            match old(self).model().redeemable(voucher_id@, timestamp_value(block_timestamp@)) {
                Err(e) => {
                    &&& result matches Err(reason)
                    &&& reason@ == e.spec_message()
                    &&& final(self).model() == old(self).model()
                },
                Ok(_) => match transfer {
                    Err(refusal) => {
                        &&& result matches Err(reason)
                        &&& reason@ == refusal@
                        &&& final(self).model() == old(self).model()
                    },
                    Ok(_) => {
                        &&& result is Ok
                        &&& final(self).model() == old(self).model().with_redeemed(voucher_id@)
                    },
                },
            },
    ;

    /// Verifies a beneficiary against what the fetch of the proof brought.
    fn verify_beneficiary_external(&mut self, beneficiary_id: String, fetched: Result<
        String,
        String,
    >) -> (result: Result<bool, String>)
        requires
            old(self).valid(),
        ensures
            final(self).valid(),
            final(self).model() == old(self).model().after_verification(beneficiary_id@, fetched),
            match old(self).model().verification(beneficiary_id@, fetched) {
                Ok(verified) => result == Ok::<bool, String>(verified),
                Err(Error::TransportError) => {
                    &&& result matches Err(reason)
                    &&& fetched matches Err(complaint)
                    &&& reason@ == transport_message(complaint@)
                },
                Err(e) => result matches Err(reason) && reason@ == e.spec_message(),
            },
    ;
}

impl AidDistributor for AidDistributorState {
    open spec fn model(&self) -> DistributorView {
        self@
    }

    open spec fn valid(&self) -> bool {
        self.wf()
    }

    fn new() -> (result: Result<Self, String>) {
        Ok(AidDistributorState::empty())
    }

    fn add_disaster_zone(&mut self, zone_id: String, name: String, initial_budget: u64) -> (result:
        Result<(), String>) {
        match self.internal_add_zone(zone_id, name, initial_budget) {
            Ok(()) => Ok(()),
            Err(e) => Err(e.message()),
        }
    }

    fn allocate_budget(&mut self, zone_id: String, amount: u64) -> (result: Result<(), String>) {
        match self.internal_allocate_budget(zone_id, amount) {
            Ok(()) => Ok(()),
            Err(e) => Err(e.message()),
        }
    }

    fn register_vendor(&mut self, vendor_addr: String, category: String) -> (result: Result<
        (),
        String,
    >) {
        match self.internal_register_vendor(vendor_addr, category) {
            Ok(()) => Ok(()),
            Err(e) => Err(e.message()),
        }
    }

    fn issue_voucher(
        &mut self,
        beneficiary_id: String,
        zone_id: String,
        amount: u64,
        expiry_days: u64,
        block_timestamp: String,
    ) -> (result: Result<String, String>) {
        match self.internal_issue_voucher(
            beneficiary_id,
            zone_id,
            amount,
            expiry_days,
            block_timestamp.as_str(),
        ) {
            Ok(voucher_id) => Ok(voucher_id),
            Err(e) => Err(e.message()),
        }
    }

    fn redeem_voucher(&mut self, voucher_id: String, block_timestamp: String, transfer: Result<
        (),
        String,
    >) -> (result: Result<(), String>) {
        match self.redemption_amount(&voucher_id, block_timestamp.as_str()) {
            Err(e) => Err(e.message()),
            Ok(_) => match transfer {
                Err(refusal) => Err(refusal),
                Ok(()) => match self.internal_redeem_voucher(voucher_id, block_timestamp.as_str()) {
                    Ok(()) => Ok(()),
                    Err(e) => Err(e.message()),
                },
            },
        }
    }

    fn verify_beneficiary_external(&mut self, beneficiary_id: String, fetched: Result<
        String,
        String,
    >) -> (result: Result<bool, String>) {
        let complaint = match &fetched {
            Err(complaint) => complaint.clone(),
            Ok(_) => String::new(),
        };
        match self.internal_verify_beneficiary(beneficiary_id, fetched) {
            Ok(verified) => Ok(verified),
            Err(Error::TransportError) => {
                let mut reason = Error::TransportError.message();
                reason.append(": ");
                reason.append(complaint.as_str());
                Err(reason)
            },
            Err(e) => Err(e.message()),
        }
    }
}

} // verus!
