//! The records that the distributor keeps, and what each stands for.

use vstd::prelude::*;

verus! {

/// A disaster-relief region with a spending budget of its own.
#[derive(Debug)]
pub struct DisasterZone {
    pub zone_id: String,
    pub name: String,
    /// What is left to hand out; vouchers are debited here when issued.
    pub budget_remaining: u64,
    /// All that was ever allocated to the zone.
    pub budget_allocated_total: u64,
}

/// What a [`DisasterZone`] stands for.
pub struct DisasterZoneView {
    pub zone_id: Seq<char>,
    pub name: Seq<char>,
    pub budget_remaining: u64,
    pub budget_allocated_total: u64,
}

impl View for DisasterZone {
    type V = DisasterZoneView;

    open spec fn view(&self) -> DisasterZoneView {
        DisasterZoneView {
            zone_id: self.zone_id@,
            name: self.name@,
            budget_remaining: self.budget_remaining,
            budget_allocated_total: self.budget_allocated_total,
        }
    }
}

impl Clone for DisasterZone {
    fn clone(&self) -> (copy: DisasterZone)
        ensures
            copy@ == self@,
    {
        DisasterZone {
            zone_id: self.zone_id.clone(),
            name: self.name.clone(),
            budget_remaining: self.budget_remaining,
            budget_allocated_total: self.budget_allocated_total,
        }
    }
}

/// A vendor that may take vouchers, with the kind of goods it sells.
#[derive(Debug)]
pub struct Vendor {
    pub vendor_address: String,
    pub category: String,
}

/// What a [`Vendor`] stands for.
pub struct VendorView {
    pub vendor_address: Seq<char>,
    pub category: Seq<char>,
}

impl View for Vendor {
    type V = VendorView;

    open spec fn view(&self) -> VendorView {
        VendorView { vendor_address: self.vendor_address@, category: self.category@ }
    }
}

impl Clone for Vendor {
    fn clone(&self) -> (copy: Vendor)
        ensures
            copy@ == self@,
    {
        Vendor { vendor_address: self.vendor_address.clone(), category: self.category.clone() }
    }
}

/// Where a voucher stands in its life. Expiry is no status: it is looked at
/// when the voucher is redeemed.
#[derive(Clone, Copy, Debug, PartialEq, Eq, Structural)]
pub enum VoucherStatus {
    Issued,
    Redeemed,
}

/// A claim on a fixed amount, for one beneficiary in one zone.
#[derive(Debug)]
pub struct Voucher {
    pub voucher_id: String,
    pub beneficiary_id: String,
    pub zone_id: String,
    pub amount: u64,
    /// The last reading of the clock at which the voucher can be redeemed.
    pub expiry_timestamp: u64,
    pub status: VoucherStatus,
}

/// What a [`Voucher`] stands for.
pub struct VoucherView {
    pub voucher_id: Seq<char>,
    pub beneficiary_id: Seq<char>,
    pub zone_id: Seq<char>,
    pub amount: u64,
    pub expiry_timestamp: u64,
    pub status: VoucherStatus,
}

impl View for Voucher {
    type V = VoucherView;

    open spec fn view(&self) -> VoucherView {
        VoucherView {
            voucher_id: self.voucher_id@,
            beneficiary_id: self.beneficiary_id@,
            zone_id: self.zone_id@,
            amount: self.amount,
            expiry_timestamp: self.expiry_timestamp,
            status: self.status,
        }
    }
}

impl Clone for Voucher {
    fn clone(&self) -> (copy: Voucher)
        ensures
            copy@ == self@,
    {
        Voucher {
            voucher_id: self.voucher_id.clone(),
            beneficiary_id: self.beneficiary_id.clone(),
            zone_id: self.zone_id.clone(),
            amount: self.amount,
            expiry_timestamp: self.expiry_timestamp,
            status: self.status,
        }
    }
}

} // verus!
