//! The voucher engine: issuing a voucher reserves its amount in the zone's
//! budget; redeeming it, once and before it expires, pays it out.
//!
//! Paying out is the ledger's work and happens outside this library. The
//! host asks [`AidDistributorState::redemption_amount`] what to transfer,
//! has the ledger transfer it, and then records the redemption.

use crate::error::Error;
use crate::modules::utils::{current_timestamp, generate_voucher_id, timestamp_value, voucher_id_of};
use crate::state::{AidDistributorState, DistributorView};
use crate::types::{DisasterZone, DisasterZoneView, Voucher, VoucherStatus, VoucherView};
use vstd::prelude::*;

verus! {

impl DistributorView {
    /// Whether a voucher of `amount` can be issued from the zone and stored
    /// under `voucher_id`: not from a zone that is not there (`NotFound`),
    /// not beyond what the zone has left (`InsufficientBudget`), and not
    /// under an identity that a stored voucher has (`AlreadyExists`).
    pub open spec fn issuable(self, zone_id: Seq<char>, amount: u64, voucher_id: Seq<char>) -> Result<
        (),
        Error,
    > {
        if !self.zones.contains_key(zone_id) {
            Err(Error::NotFound)
        } else if amount > self.zones[zone_id].budget_remaining {
            Err(Error::InsufficientBudget)
        } else if self.vouchers.contains_key(voucher_id) {
            Err(Error::AlreadyExists)
        } else {
            Ok(())
        }
    }

    /// The state after `voucher` was issued: its amount is taken from what
    /// its zone has left, and the voucher is stored under its identity.
    pub open spec fn with_voucher(self, voucher: VoucherView) -> DistributorView {
        let zone = self.zones[voucher.zone_id];
        DistributorView {
            zones: self.zones.insert(
                voucher.zone_id,
                DisasterZoneView {
                    zone_id: zone.zone_id,
                    name: zone.name,
                    budget_remaining: (zone.budget_remaining - voucher.amount) as u64,
                    budget_allocated_total: zone.budget_allocated_total,
                },
            ),
            vendors: self.vendors,
            vouchers: self.vouchers.insert(voucher.voucher_id, voucher),
            verified_beneficiaries: self.verified_beneficiaries,
        }
    }

    /// What a redemption of `voucher_id` at the clock reading `now` comes to:
    /// the amount to pay out, or why nothing is paid. A voucher that was
    /// redeemed is refused as such whether or not it has expired as well.
    pub open spec fn redeemable(self, voucher_id: Seq<char>, now: u64) -> Result<u64, Error> {
        if !self.vouchers.contains_key(voucher_id) {
            Err(Error::NotFound)
        } else if self.vouchers[voucher_id].status == VoucherStatus::Redeemed {
            Err(Error::AlreadyRedeemed)
        } else if now > self.vouchers[voucher_id].expiry_timestamp {
            Err(Error::Expired)
        } else {
            Ok(self.vouchers[voucher_id].amount)
        }
    }

    /// The state after the voucher was redeemed: its status has changed and
    /// nothing else has.
    pub open spec fn with_redeemed(self, voucher_id: Seq<char>) -> DistributorView {
        let voucher = self.vouchers[voucher_id];
        DistributorView {
            zones: self.zones,
            vendors: self.vendors,
            vouchers: self.vouchers.insert(
                voucher_id,
                VoucherView {
                    voucher_id: voucher.voucher_id,
                    beneficiary_id: voucher.beneficiary_id,
                    zone_id: voucher.zone_id,
                    amount: voucher.amount,
                    expiry_timestamp: voucher.expiry_timestamp,
                    status: VoucherStatus::Redeemed,
                },
            ),
            verified_beneficiaries: self.verified_beneficiaries,
        }
    }
}

/// Issuing a voucher takes exactly its amount from what its zone has left,
/// and touches no other zone nor what any zone was allocated.
pub proof fn lemma_issue_debits_only_its_zone(before: DistributorView, voucher: VoucherView)
    requires
        before.issuable(voucher.zone_id, voucher.amount, voucher.voucher_id) is Ok,
    ensures
        before.with_voucher(voucher).zones.dom() == before.zones.dom(),
        before.with_voucher(voucher).zones[voucher.zone_id].budget_remaining
            == before.zones[voucher.zone_id].budget_remaining - voucher.amount,
        voucher.amount > 0 ==> before.with_voucher(voucher).zones[voucher.zone_id].budget_remaining
            < before.zones[voucher.zone_id].budget_remaining,
        before.with_voucher(voucher).zones[voucher.zone_id].budget_allocated_total
            == before.zones[voucher.zone_id].budget_allocated_total,
        forall|other: Seq<char>|
            other != voucher.zone_id ==> #[trigger] before.with_voucher(voucher).zones[other]
                == before.zones[other],
{
    assert(before.with_voucher(voucher).zones.dom() =~= before.zones.dom());
}

/// Issuing a voucher from a zone that has the budget keeps the invariant.
pub proof fn lemma_with_voucher_keeps_inv(before: DistributorView, voucher: VoucherView)
    requires
        before.inv(),
        before.issuable(voucher.zone_id, voucher.amount, voucher.voucher_id) is Ok,
    ensures
        before.with_voucher(voucher).inv(),
{
}

/// A redemption changes a voucher from issued to redeemed, and whenever it
/// is tried again, before or after the expiry, it fails with
/// `AlreadyRedeemed`.
pub proof fn lemma_redeemed_only_once(before: DistributorView, voucher_id: Seq<char>, now: u64, later: u64)
    requires
        before.redeemable(voucher_id, now) is Ok,
    ensures
        before.vouchers[voucher_id].status == VoucherStatus::Issued,
        before.with_redeemed(voucher_id).vouchers[voucher_id].status == VoucherStatus::Redeemed,
        before.with_redeemed(voucher_id).redeemable(voucher_id, later) == Err::<u64, Error>(
            Error::AlreadyRedeemed,
        ),
{
}

/// Issuing a voucher adds one voucher under an identity that was free, and
/// leaves every stored voucher as it was: none is replaced, and one that
/// was redeemed stays redeemed.
pub proof fn lemma_issue_keeps_stored_vouchers(before: DistributorView, voucher: VoucherView)
    requires
        before.vouchers.dom().finite(),
        before.issuable(voucher.zone_id, voucher.amount, voucher.voucher_id) is Ok,
    ensures
        !before.vouchers.contains_key(voucher.voucher_id),
        before.with_voucher(voucher).vouchers.dom() == before.vouchers.dom().insert(
            voucher.voucher_id,
        ),
        before.with_voucher(voucher).vouchers.len() == before.vouchers.len() + 1,
        before.with_voucher(voucher).vouchers[voucher.voucher_id] == voucher,
        forall|id: Seq<char>| #[trigger]
            before.vouchers.contains_key(id) ==> before.with_voucher(voucher).vouchers[id]
                == before.vouchers[id],
{
}

/// Redeeming a voucher changes no other voucher, and adds and removes none.
pub proof fn lemma_redeem_changes_one_voucher(
    before: DistributorView,
    voucher_id: Seq<char>,
    other_id: Seq<char>,
)
    requires
        before.vouchers.contains_key(voucher_id),
        other_id != voucher_id,
    ensures
        before.with_redeemed(voucher_id).vouchers.dom() == before.vouchers.dom(),
        before.with_redeemed(voucher_id).vouchers[other_id] == before.vouchers[other_id],
{
    assert(before.with_redeemed(voucher_id).vouchers.dom() =~= before.vouchers.dom());
}

/// A voucher that was never redeemed and whose expiry has passed is refused
/// with `Expired`.
pub proof fn lemma_expired_is_refused(state: DistributorView, voucher_id: Seq<char>, now: u64)
    requires
        state.vouchers.contains_key(voucher_id),
        state.vouchers[voucher_id].status == VoucherStatus::Issued,
        now > state.vouchers[voucher_id].expiry_timestamp,
    ensures
        state.redeemable(voucher_id, now) == Err::<u64, Error>(Error::Expired),
{
}

/// A redemption leaves every zone's budget as it was: the amount was
/// reserved when the voucher was issued. It keeps the invariant.
pub proof fn lemma_with_redeemed_keeps_inv(before: DistributorView, voucher_id: Seq<char>)
    requires
        before.inv(),
        before.vouchers.contains_key(voucher_id),
    ensures
        before.with_redeemed(voucher_id).zones == before.zones,
        before.with_redeemed(voucher_id).inv(),
{
}

impl AidDistributorState {
    /// Issues a voucher of `amount` to `beneficiary_id` from the budget of
    /// `zone_id`, good until `expiry_days` past the clock's reading, and
    /// returns its identity.
    ///
    /// An unknown zone is refused with `NotFound`, an amount beyond what the
    /// zone has left with `InsufficientBudget`. A second issuance to the same
    /// beneficiary in the same zone at the same block timestamp would have
    /// the identity of the first; it is refused with `AlreadyExists`, so that
    /// no stored voucher is ever replaced. The amount is reserved now, not
    /// when the voucher is redeemed.
    pub fn internal_issue_voucher(
        &mut self,
        beneficiary_id: String,
        zone_id: String,
        amount: u64,
        expiry_days: u64,
        block_timestamp: &str,
    ) -> (result: Result<String, Error>)
        requires
            old(self).wf(),
            old(self)@.issuable(
                zone_id@,
                amount,
                voucher_id_of(zone_id@, beneficiary_id@, block_timestamp@),
            ) is Ok ==> timestamp_value(block_timestamp@) + expiry_days <= u64::MAX,
        ensures
            final(self).wf(),
            match old(self)@.issuable(
                zone_id@,
                amount,
                voucher_id_of(zone_id@, beneficiary_id@, block_timestamp@),
            ) {
                Err(e) => result == Err::<String, Error>(e) && final(self)@ == old(self)@,
                Ok(_) => {
                    &&& result matches Ok(voucher_id)
                    &&& voucher_id@ == voucher_id_of(zone_id@, beneficiary_id@, block_timestamp@)
                    &&& final(self)@ == old(self)@.with_voucher(
                        VoucherView {
                            voucher_id: voucher_id@,
                            beneficiary_id: beneficiary_id@,
                            zone_id: zone_id@,
                            amount,
                            expiry_timestamp: (timestamp_value(block_timestamp@) + expiry_days) as u64,
                            status: VoucherStatus::Issued,
                        },
                    )
                    &&& !old(self)@.vouchers.contains_key(voucher_id@)
                    &&& final(self)@.vouchers.len() == old(self)@.vouchers.len() + 1
                    &&& forall|id: Seq<char>| #[trigger]
                        old(self)@.vouchers.contains_key(id)
                            ==> final(self)@.vouchers[id] == old(self)@.vouchers[id]
                },
            },
    {
        proof {
            self.lemma_unfold();
        }
        let debited = match self.disaster_zones.get(&zone_id) {
            None => {
                return Err(Error::NotFound);
            },
            Some(zone) => {
                if amount > zone.budget_remaining {
                    return Err(Error::InsufficientBudget);
                }
                DisasterZone {
                    zone_id: zone.zone_id.clone(),
                    name: zone.name.clone(),
                    budget_remaining: zone.budget_remaining - amount,
                    budget_allocated_total: zone.budget_allocated_total,
                }
            },
        };
        let voucher_id = generate_voucher_id(
            zone_id.as_str(),
            beneficiary_id.as_str(),
            block_timestamp,
        );
        if self.vouchers.contains_key(&voucher_id) {
            return Err(Error::AlreadyExists);
        }
        let now = current_timestamp(block_timestamp);
        let voucher = Voucher {
            voucher_id: voucher_id.clone(),
            beneficiary_id,
            zone_id: zone_id.clone(),
            amount,
            expiry_timestamp: now + expiry_days,
            status: VoucherStatus::Issued,
        };
        proof {
            lemma_with_voucher_keeps_inv(old(self)@, voucher@);
            lemma_issue_keeps_stored_vouchers(old(self)@, voucher@);
        }
        self.disaster_zones.insert(zone_id, debited);
        self.vouchers.insert(voucher_id.clone(), voucher);
        proof {
            self.lemma_unfold();
        }
        Ok(voucher_id)
    }

    /// What redeeming `voucher_id` now would pay out, or why it would not.
    /// The state is only read.
    pub fn redemption_amount(&self, voucher_id: &String, block_timestamp: &str) -> (result: Result<
        u64,
        Error,
    >)
        requires
            self.wf(),
        ensures
            result == self@.redeemable(voucher_id@, timestamp_value(block_timestamp@)),
    {
        proof {
            self.lemma_unfold();
        }
        match self.vouchers.get(voucher_id) {
            None => Err(Error::NotFound),
            Some(voucher) => {
                if voucher.status == VoucherStatus::Redeemed {
                    Err(Error::AlreadyRedeemed)
                } else if current_timestamp(block_timestamp) > voucher.expiry_timestamp {
                    Err(Error::Expired)
                } else {
                    Ok(voucher.amount)
                }
            },
        }
    }

    /// Records that `voucher_id` was redeemed: to be called when the ledger
    /// has transferred what [`Self::redemption_amount`] gave.
    ///
    /// It fails as `redemption_amount` does, with `NotFound`,
    /// `AlreadyRedeemed` or `Expired`, and then changes nothing. No zone's
    /// budget is touched either way.
    pub fn internal_redeem_voucher(&mut self, voucher_id: String, block_timestamp: &str) -> (result:
        Result<(), Error>)
        requires
            old(self).wf(),
        ensures
            final(self).wf(),
            match old(self)@.redeemable(voucher_id@, timestamp_value(block_timestamp@)) {
                Ok(_) => result == Ok::<(), Error>(()) && final(self)@ == old(self)@.with_redeemed(
                    voucher_id@,
                ),
                Err(e) => result == Err::<(), Error>(e) && final(self)@ == old(self)@,
            },
    {
        proof {
            self.lemma_unfold();
        }
        let redeemed = match self.vouchers.get(&voucher_id) {
            None => {
                return Err(Error::NotFound);
            },
            Some(voucher) => {
                if voucher.status == VoucherStatus::Redeemed {
                    return Err(Error::AlreadyRedeemed);
                }
                if current_timestamp(block_timestamp) > voucher.expiry_timestamp {
                    return Err(Error::Expired);
                }
                Voucher {
                    voucher_id: voucher.voucher_id.clone(),
                    beneficiary_id: voucher.beneficiary_id.clone(),
                    zone_id: voucher.zone_id.clone(),
                    amount: voucher.amount,
                    expiry_timestamp: voucher.expiry_timestamp,
                    status: VoucherStatus::Redeemed,
                }
            },
        };
        self.vouchers.insert(voucher_id, redeemed);
        proof {
            self.lemma_unfold();
            lemma_with_redeemed_keeps_inv(old(self)@, voucher_id@);
        }
        Ok(())
    }
}

} // verus!
