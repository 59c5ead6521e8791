//! The distributor's state: four maps under one owner, and what they stand
//! for together.

use crate::string_map::StringMap;
use crate::types::{DisasterZone, DisasterZoneView, Vendor, VendorView, Voucher, VoucherView};
use vstd::prelude::*;

verus! {

/// What an [`AidDistributorState`] stands for: each map by the characters of
/// its keys.
pub struct DistributorView {
    /// Zone identity to zone.
    pub zones: Map<Seq<char>, DisasterZoneView>,
    /// Vendor address to vendor.
    pub vendors: Map<Seq<char>, VendorView>,
    /// Voucher identity to voucher.
    pub vouchers: Map<Seq<char>, VoucherView>,
    /// Beneficiary identity to the oracle's word.
    pub verified_beneficiaries: Map<Seq<char>, bool>,
}

impl DistributorView {
    /// The state at genesis: nothing registered, issued or verified.
    pub open spec fn empty() -> DistributorView {
        DistributorView {
            zones: Map::empty(),
            vendors: Map::empty(),
            vouchers: Map::empty(),
            verified_beneficiaries: Map::empty(),
        }
    }

    /// What holds of the distributor between any two calls.
    ///
    /// - Each map holds finitely many records.
    /// - Each record is stored under its own identity.
    /// - No zone has more budget left than was ever allocated to it.
    /// - Each voucher names a zone that exists.
    /// - Only positive verifications are recorded.
    pub open spec fn inv(self) -> bool {
        &&& self.zones.dom().finite()
        &&& self.vendors.dom().finite()
        &&& self.vouchers.dom().finite()
        &&& self.verified_beneficiaries.dom().finite()
        &&& forall|id: Seq<char>| #[trigger]
            self.zones.contains_key(id) ==> {
                &&& self.zones[id].zone_id == id
                &&& self.zones[id].budget_remaining <= self.zones[id].budget_allocated_total
            }
        &&& forall|address: Seq<char>| #[trigger]
            self.vendors.contains_key(address) ==> self.vendors[address].vendor_address == address
        &&& forall|id: Seq<char>| #[trigger]
            self.vouchers.contains_key(id) ==> {
                &&& self.vouchers[id].voucher_id == id
                &&& self.zones.contains_key(self.vouchers[id].zone_id)
            }
        &&& forall|id: Seq<char>| #[trigger]
            self.verified_beneficiaries.contains_key(id) ==> self.verified_beneficiaries[id]
    }
}

/// The aggregate that every call reads and changes: zones, vendors, vouchers
/// and verified beneficiaries. The ledger is no part of it; the host keeps
/// that beside it.
pub struct AidDistributorState {
    pub(crate) disaster_zones: StringMap<DisasterZone>,
    pub(crate) vendors: StringMap<Vendor>,
    pub(crate) vouchers: StringMap<Voucher>,
    pub(crate) verified_beneficiaries: StringMap<bool>,
}

impl View for AidDistributorState {
    type V = DistributorView;

    closed spec fn view(&self) -> DistributorView {
        DistributorView {
            zones: self.disaster_zones@,
            vendors: self.vendors@,
            vouchers: self.vouchers@,
            verified_beneficiaries: self.verified_beneficiaries@,
        }
    }
}

impl AidDistributorState {
    /// The four maps are sound and together meet [`DistributorView::inv`].
    pub closed spec fn wf(&self) -> bool {
        &&& self.disaster_zones.wf()
        &&& self.vendors.wf()
        &&& self.vouchers.wf()
        &&& self.verified_beneficiaries.wf()
        &&& self@.inv()
    }

    /// How the view and the well-formedness read over the four maps.
    pub(crate) proof fn lemma_unfold(&self)
        ensures
            self@ == (DistributorView {
                zones: self.disaster_zones@,
                vendors: self.vendors@,
                vouchers: self.vouchers@,
                verified_beneficiaries: self.verified_beneficiaries@,
            }),
            self.wf() == (self.disaster_zones.wf() && self.vendors.wf() && self.vouchers.wf()
                && self.verified_beneficiaries.wf() && self@.inv()),
    {
    }

    /// A well-formed state meets the invariant of what it stands for.
    pub proof fn lemma_wf_gives_inv(&self)
        requires
            self.wf(),
        ensures
            self@.inv(),
    {
    }

    /// The state at genesis.
    pub fn empty() -> (state: AidDistributorState)
        ensures
            state.wf(),
            state@ == DistributorView::empty(),
    {
        AidDistributorState {
            disaster_zones: StringMap::new(),
            vendors: StringMap::new(),
            vouchers: StringMap::new(),
            verified_beneficiaries: StringMap::new(),
        }
    }

    /// The zones, by zone identity.
    pub fn disaster_zones(&self) -> (zones: &StringMap<DisasterZone>)
        requires
            self.wf(),
        ensures
            zones.wf(),
            zones@ == self@.zones,
    {
        &self.disaster_zones
    }

    /// The vendors, by vendor address.
    pub fn vendors(&self) -> (vendors: &StringMap<Vendor>)
        requires
            self.wf(),
        ensures
            vendors.wf(),
            vendors@ == self@.vendors,
    {
        &self.vendors
    }

    /// The vouchers, by voucher identity.
    pub fn vouchers(&self) -> (vouchers: &StringMap<Voucher>)
        requires
            self.wf(),
        ensures
            vouchers.wf(),
            vouchers@ == self@.vouchers,
    {
        &self.vouchers
    }

    /// The beneficiaries that the oracle has confirmed.
    pub fn verified_beneficiaries(&self) -> (verified: &StringMap<bool>)
        requires
            self.wf(),
        ensures
            verified.wf(),
            verified@ == self@.verified_beneficiaries,
    {
        &self.verified_beneficiaries
    }
}

} // verus!
