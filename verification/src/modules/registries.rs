//! The zone registry and the vendor registry. Both only grow: nothing is
//! ever removed from either.

use crate::error::Error;
use crate::state::{AidDistributorState, DistributorView};
use crate::types::{DisasterZone, DisasterZoneView, Vendor, VendorView};
use vstd::prelude::*;

verus! {

impl DistributorView {
    /// The state with a new zone whose whole budget is still to be spent.
    pub open spec fn with_zone(
        self,
        zone_id: Seq<char>,
        name: Seq<char>,
        initial_budget: u64,
    ) -> DistributorView {
        DistributorView {
            zones: self.zones.insert(
                zone_id,
                DisasterZoneView {
                    zone_id,
                    name,
                    budget_remaining: initial_budget,
                    budget_allocated_total: initial_budget,
                },
            ),
            vendors: self.vendors,
            vouchers: self.vouchers,
            verified_beneficiaries: self.verified_beneficiaries,
        }
    }

    /// The state with `amount` more in the zone's budget, both in what is
    /// left and in what was allocated in all.
    pub open spec fn with_allocation(self, zone_id: Seq<char>, amount: u64) -> DistributorView {
        let zone = self.zones[zone_id];
        DistributorView {
            zones: self.zones.insert(
                zone_id,
                DisasterZoneView {
                    zone_id: zone.zone_id,
                    name: zone.name,
                    budget_remaining: (zone.budget_remaining + amount) as u64,
                    budget_allocated_total: (zone.budget_allocated_total + amount) as u64,
                },
            ),
            vendors: self.vendors,
            vouchers: self.vouchers,
            verified_beneficiaries: self.verified_beneficiaries,
        }
    }

    /// The state with a new vendor.
    pub open spec fn with_vendor(self, vendor_addr: Seq<char>, category: Seq<char>) -> DistributorView {
        DistributorView {
            zones: self.zones,
            vendors: self.vendors.insert(
                vendor_addr,
                VendorView { vendor_address: vendor_addr, category },
            ),
            vouchers: self.vouchers,
            verified_beneficiaries: self.verified_beneficiaries,
        }
    }
}

/// In every well-formed state, no zone has more budget left than was
/// allocated to it in all.
pub proof fn lemma_budget_within_allocation(state: &AidDistributorState, zone_id: Seq<char>)
    requires
        state.wf(),
        state@.zones.contains_key(zone_id),
    ensures
        state@.zones[zone_id].budget_remaining <= state@.zones[zone_id].budget_allocated_total,
{
    state.lemma_wf_gives_inv();
}

/// Adding a zone keeps the invariant.
pub proof fn lemma_with_zone_keeps_inv(
    before: DistributorView,
    zone_id: Seq<char>,
    name: Seq<char>,
    initial_budget: u64,
)
    requires
        before.inv(),
    ensures
        before.with_zone(zone_id, name, initial_budget).inv(),
{
}

/// Allocating budget to a zone keeps the invariant, as long as the zone's
/// total still fits in a `u64`.
pub proof fn lemma_with_allocation_keeps_inv(before: DistributorView, zone_id: Seq<char>, amount: u64)
    requires
        before.inv(),
        before.zones.contains_key(zone_id),
        before.zones[zone_id].budget_allocated_total + amount <= u64::MAX,
    ensures
        before.with_allocation(zone_id, amount).inv(),
{
}

/// Registering a vendor keeps the invariant.
pub proof fn lemma_with_vendor_keeps_inv(
    before: DistributorView,
    vendor_addr: Seq<char>,
    category: Seq<char>,
)
    requires
        before.inv(),
    ensures
        before.with_vendor(vendor_addr, category).inv(),
{
}

impl AidDistributorState {
    /// Registers a zone whose budget, left and allocated, is `initial_budget`.
    /// A zone identity that is taken is refused with `AlreadyExists`.
    pub fn internal_add_zone(&mut self, zone_id: String, name: String, initial_budget: u64) -> (result:
        Result<(), Error>)
        requires
            old(self).wf(),
        ensures
            final(self).wf(),
            old(self)@.zones.contains_key(zone_id@) ==> result == Err::<(), Error>(
                Error::AlreadyExists,
            ) && final(self)@ == old(self)@,
            !old(self)@.zones.contains_key(zone_id@) ==> result == Ok::<(), Error>(())
                && final(self)@ == old(self)@.with_zone(zone_id@, name@, initial_budget),
    {
        proof {
            self.lemma_unfold();
        }
        if self.disaster_zones.contains_key(&zone_id) {
            return Err(Error::AlreadyExists);
        }
        let key = zone_id.clone();
        let zone = DisasterZone {
            zone_id,
            name,
            budget_remaining: initial_budget,
            budget_allocated_total: initial_budget,
        };
        self.disaster_zones.insert(key, zone);
        proof {
            self.lemma_unfold();
            lemma_with_zone_keeps_inv(old(self)@, zone_id@, name@, initial_budget);
        }
        Ok(())
    }

    /// Adds `amount` to the budget of a zone: to what is left and to what was
    /// allocated in all. An unknown zone is refused with `NotFound`.
    ///
    /// No bound is set on a zone's budget but that its total fits in a `u64`.
    pub fn internal_allocate_budget(&mut self, zone_id: String, amount: u64) -> (result: Result<
        (),
        Error,
    >)
        requires
            old(self).wf(),
            old(self)@.zones.contains_key(zone_id@) ==> old(self)@.zones[zone_id@]
                .budget_allocated_total + amount <= u64::MAX,
        ensures
            final(self).wf(),
            !old(self)@.zones.contains_key(zone_id@) ==> result == Err::<(), Error>(Error::NotFound)
                && final(self)@ == old(self)@,
            old(self)@.zones.contains_key(zone_id@) ==> result == Ok::<(), Error>(())
                && final(self)@ == old(self)@.with_allocation(zone_id@, amount),
    {
        proof {
            self.lemma_unfold();
        }
        let updated = match self.disaster_zones.get(&zone_id) {
            None => {
                return Err(Error::NotFound);
            },
            Some(zone) => DisasterZone {
                zone_id: zone.zone_id.clone(),
                name: zone.name.clone(),
                budget_remaining: zone.budget_remaining + amount,
                budget_allocated_total: zone.budget_allocated_total + amount,
            },
        };
        self.disaster_zones.insert(zone_id, updated);
        proof {
            self.lemma_unfold();
            lemma_with_allocation_keeps_inv(old(self)@, zone_id@, amount);
        }
        Ok(())
    }

    /// Registers a vendor under its address. An address that is taken is
    /// refused with `AlreadyExists`: a second registration changes nothing.
    pub fn internal_register_vendor(&mut self, vendor_addr: String, category: String) -> (result:
        Result<(), Error>)
        requires
            old(self).wf(),
        ensures
            final(self).wf(),
            old(self)@.vendors.contains_key(vendor_addr@) ==> result == Err::<(), Error>(
                Error::AlreadyExists,
            ) && final(self)@ == old(self)@,
            !old(self)@.vendors.contains_key(vendor_addr@) ==> result == Ok::<(), Error>(())
                && final(self)@ == old(self)@.with_vendor(vendor_addr@, category@),
    {
        proof {
            self.lemma_unfold();
        }
        if self.vendors.contains_key(&vendor_addr) {
            return Err(Error::AlreadyExists);
        }
        let key = vendor_addr.clone();
        let vendor = Vendor { vendor_address: vendor_addr, category };
        self.vendors.insert(key, vendor);
        proof {
            self.lemma_unfold();
            lemma_with_vendor_keeps_inv(old(self)@, vendor_addr@, category@);
        }
        Ok(())
    }
}

} // verus!
