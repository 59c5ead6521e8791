//! Rebuilding a state from plain records, for a host that keeps the state
//! in storage of its own between calls. The records are taken in only if
//! together they meet what holds of every state.

use crate::state::{AidDistributorState, DistributorView};
use crate::string_map::{assoc, StringMap};
use crate::types::{DisasterZone, DisasterZoneView, Vendor, VendorView, Voucher, VoucherView};
use vstd::prelude::*;

verus! {

/// The identities of a list of zones, in order.
pub open spec fn zone_ids(zones: Seq<DisasterZone>) -> Seq<Seq<char>> {
    Seq::new(zones.len(), |i: int| zones[i].zone_id@)
}

/// What a list of zones stands for, in order.
pub open spec fn zone_views(zones: Seq<DisasterZone>) -> Seq<DisasterZoneView> {
    Seq::new(zones.len(), |i: int| zones[i]@)
}

/// The addresses of a list of vendors, in order.
pub open spec fn vendor_addresses(vendors: Seq<Vendor>) -> Seq<Seq<char>> {
    Seq::new(vendors.len(), |i: int| vendors[i].vendor_address@)
}

/// What a list of vendors stands for, in order.
pub open spec fn vendor_views(vendors: Seq<Vendor>) -> Seq<VendorView> {
    Seq::new(vendors.len(), |i: int| vendors[i]@)
}

/// The identities of a list of vouchers, in order.
pub open spec fn voucher_ids(vouchers: Seq<Voucher>) -> Seq<Seq<char>> {
    Seq::new(vouchers.len(), |i: int| vouchers[i].voucher_id@)
}

/// What a list of vouchers stands for, in order.
pub open spec fn voucher_views(vouchers: Seq<Voucher>) -> Seq<VoucherView> {
    Seq::new(vouchers.len(), |i: int| vouchers[i]@)
}

/// The characters of each of a list of strings, in order.
pub open spec fn texts(items: Seq<String>) -> Seq<Seq<char>> {
    Seq::new(items.len(), |i: int| items[i]@)
}

/// Whether the records can stand together as one state: no identity occurs
/// twice in its list, no zone has more left than it was allocated, and
/// each voucher names one of the zones.
pub open spec fn records_consistent(
    zones: Seq<DisasterZone>,
    vendors: Seq<Vendor>,
    vouchers: Seq<Voucher>,
    verified: Seq<String>,
) -> bool {
    &&& zone_ids(zones).no_duplicates()
    &&& forall|i: int|
        0 <= i < zones.len() ==> (#[trigger] zones[i]).budget_remaining
            <= zones[i].budget_allocated_total
    &&& vendor_addresses(vendors).no_duplicates()
    &&& voucher_ids(vouchers).no_duplicates()
    &&& forall|i: int|
        0 <= i < vouchers.len() ==> zone_ids(zones).contains((#[trigger] vouchers[i]).zone_id@)
    &&& texts(verified).no_duplicates()
}

/// The state that consistent records stand for: each record under its own
/// identity, and each listed beneficiary verified.
pub open spec fn records_view(
    zones: Seq<DisasterZone>,
    vendors: Seq<Vendor>,
    vouchers: Seq<Voucher>,
    verified: Seq<String>,
) -> DistributorView {
    DistributorView {
        zones: assoc(zone_ids(zones), zone_views(zones)),
        vendors: assoc(vendor_addresses(vendors), vendor_views(vendors)),
        vouchers: assoc(voucher_ids(vouchers), voucher_views(vouchers)),
        verified_beneficiaries: assoc(texts(verified), Seq::new(verified.len(), |i: int| true)),
    }
}

/// The zones as a map, if no identity occurs twice and no zone has more
/// left than it was allocated.
fn zones_from_records(zones: &Vec<DisasterZone>) -> (map: Option<StringMap<DisasterZone>>)
    ensures
        match map {
            Some(map) => {
                &&& map.wf()
                &&& map.spec_keys() == zone_ids(zones@)
                &&& map.spec_values() == zone_views(zones@)
                &&& zone_ids(zones@).no_duplicates()
                &&& forall|i: int|
                    0 <= i < zones@.len() ==> (#[trigger] zones@[i]).budget_remaining
                        <= zones@[i].budget_allocated_total
            },
            None => !(zone_ids(zones@).no_duplicates() && forall|i: int|
                0 <= i < zones@.len() ==> (#[trigger] zones@[i]).budget_remaining
                    <= zones@[i].budget_allocated_total),
        },
{
    let mut map: StringMap<DisasterZone> = StringMap::new();
    let n = zones.len();
    let mut i: usize = 0;
    while i < n
        invariant
            i <= n,
            n == zones@.len(),
            map.wf(),
            map.spec_keys() == zone_ids(zones@).take(i as int),
            map.spec_values() == zone_views(zones@).take(i as int),
            forall|j: int|
                0 <= j < i ==> (#[trigger] zones@[j]).budget_remaining
                    <= zones@[j].budget_allocated_total,
        decreases n - i,
    {
        let zone = &zones[i];
        proof {
            map.lemma_view_is_entries();
        }
        if zone.budget_remaining > zone.budget_allocated_total {
            return None;
        }
        if map.contains_key(&zone.zone_id) {
            proof {
                let ids = zone_ids(zones@);
                let j = ids.take(i as int).index_of(zone.zone_id@);
                assert(ids[j] == ids[i as int] && j != i);
            }
            return None;
        }
        map.insert(zone.zone_id.clone(), zone.clone());
        proof {
            assert(zone_ids(zones@).take(i + 1) =~= zone_ids(zones@).take(i as int).push(
                zone.zone_id@,
            ));
            assert(zone_views(zones@).take(i + 1) =~= zone_views(zones@).take(i as int).push(zone@));
        }
        i += 1;
    }
    proof {
        map.lemma_view_is_entries();
        assert(zone_ids(zones@).take(n as int) =~= zone_ids(zones@));
        assert(zone_views(zones@).take(n as int) =~= zone_views(zones@));
    }
    Some(map)
}

/// The vendors as a map, if no address occurs twice.
fn vendors_from_records(vendors: &Vec<Vendor>) -> (map: Option<StringMap<Vendor>>)
    ensures
        match map {
            Some(map) => {
                &&& map.wf()
                &&& map.spec_keys() == vendor_addresses(vendors@)
                &&& map.spec_values() == vendor_views(vendors@)
                &&& vendor_addresses(vendors@).no_duplicates()
            },
            None => !vendor_addresses(vendors@).no_duplicates(),
        },
{
    let mut map: StringMap<Vendor> = StringMap::new();
    let n = vendors.len();
    let mut i: usize = 0;
    while i < n
        invariant
            i <= n,
            n == vendors@.len(),
            map.wf(),
            map.spec_keys() == vendor_addresses(vendors@).take(i as int),
            map.spec_values() == vendor_views(vendors@).take(i as int),
        decreases n - i,
    {
        let vendor = &vendors[i];
        proof {
            map.lemma_view_is_entries();
        }
        if map.contains_key(&vendor.vendor_address) {
            proof {
                let ids = vendor_addresses(vendors@);
                let j = ids.take(i as int).index_of(vendor.vendor_address@);
                assert(ids[j] == ids[i as int] && j != i);
            }
            return None;
        }
        map.insert(vendor.vendor_address.clone(), vendor.clone());
        proof {
            assert(vendor_addresses(vendors@).take(i + 1) =~= vendor_addresses(vendors@).take(
                i as int,
            ).push(vendor.vendor_address@));
            assert(vendor_views(vendors@).take(i + 1) =~= vendor_views(vendors@).take(i as int).push(
                vendor@,
            ));
        }
        i += 1;
    }
    proof {
        map.lemma_view_is_entries();
        assert(vendor_addresses(vendors@).take(n as int) =~= vendor_addresses(vendors@));
        assert(vendor_views(vendors@).take(n as int) =~= vendor_views(vendors@));
    }
    Some(map)
}

/// The vouchers as a map, if no identity occurs twice and each voucher
/// names a zone of `zones`.
fn vouchers_from_records(vouchers: &Vec<Voucher>, zones: &StringMap<DisasterZone>) -> (map: Option<
    StringMap<Voucher>,
>)
    requires
        zones.wf(),
    ensures
        match map {
            Some(map) => {
                &&& map.wf()
                &&& map.spec_keys() == voucher_ids(vouchers@)
                &&& map.spec_values() == voucher_views(vouchers@)
                &&& voucher_ids(vouchers@).no_duplicates()
                &&& forall|i: int|
                    0 <= i < vouchers@.len() ==> zones@.contains_key(
                        (#[trigger] vouchers@[i]).zone_id@,
                    )
            },
            None => !(voucher_ids(vouchers@).no_duplicates() && forall|i: int|
                0 <= i < vouchers@.len() ==> zones@.contains_key((#[trigger] vouchers@[i]).zone_id@)),
        },
{
    let mut map: StringMap<Voucher> = StringMap::new();
    let n = vouchers.len();
    let mut i: usize = 0;
    while i < n
        invariant
            i <= n,
            n == vouchers@.len(),
            zones.wf(),
            map.wf(),
            map.spec_keys() == voucher_ids(vouchers@).take(i as int),
            map.spec_values() == voucher_views(vouchers@).take(i as int),
            forall|j: int| 0 <= j < i ==> zones@.contains_key((#[trigger] vouchers@[j]).zone_id@),
        decreases n - i,
    {
        let voucher = &vouchers[i];
        proof {
            map.lemma_view_is_entries();
        }
        if !zones.contains_key(&voucher.zone_id) {
            return None;
        }
        if map.contains_key(&voucher.voucher_id) {
            proof {
                let ids = voucher_ids(vouchers@);
                let j = ids.take(i as int).index_of(voucher.voucher_id@);
                assert(ids[j] == ids[i as int] && j != i);
            }
            return None;
        }
        map.insert(voucher.voucher_id.clone(), voucher.clone());
        proof {
            assert(voucher_ids(vouchers@).take(i + 1) =~= voucher_ids(vouchers@).take(i as int).push(
                voucher.voucher_id@,
            ));
            assert(voucher_views(vouchers@).take(i + 1) =~= voucher_views(vouchers@).take(
                i as int,
            ).push(voucher@));
        }
        i += 1;
    }
    proof {
        map.lemma_view_is_entries();
        assert(voucher_ids(vouchers@).take(n as int) =~= voucher_ids(vouchers@));
        assert(voucher_views(vouchers@).take(n as int) =~= voucher_views(vouchers@));
    }
    Some(map)
}

/// The verified beneficiaries as a map, if none occurs twice.
fn verified_from_records(verified: &Vec<String>) -> (map: Option<StringMap<bool>>)
    ensures
        match map {
            Some(map) => {
                &&& map.wf()
                &&& map.spec_keys() == texts(verified@)
                &&& map.spec_values() == Seq::new(verified@.len(), |i: int| true)
                &&& texts(verified@).no_duplicates()
            },
            None => !texts(verified@).no_duplicates(),
        },
{
    let mut map: StringMap<bool> = StringMap::new();
    let n = verified.len();
    let mut i: usize = 0;
    while i < n
        invariant
            i <= n,
            n == verified@.len(),
            map.wf(),
            map.spec_keys() == texts(verified@).take(i as int),
            map.spec_values() == Seq::new(i as nat, |j: int| true),
        decreases n - i,
    {
        let id = &verified[i];
        proof {
            map.lemma_view_is_entries();
        }
        if map.contains_key(id) {
            proof {
                let ids = texts(verified@);
                let j = ids.take(i as int).index_of(id@);
                assert(ids[j] == ids[i as int] && j != i);
            }
            return None;
        }
        map.insert(id.clone(), true);
        proof {
            assert(texts(verified@).take(i + 1) =~= texts(verified@).take(i as int).push(id@));
            assert(Seq::new((i + 1) as nat, |j: int| true) =~= Seq::new(i as nat, |j: int| true).push(
                true,
            ));
        }
        i += 1;
    }
    proof {
        map.lemma_view_is_entries();
        assert(texts(verified@).take(n as int) =~= texts(verified@));
    }
    Some(map)
}

impl AidDistributorState {
    /// The state that the records stand for, or `None` where they are not
    /// consistent with each other.
    pub fn from_records(
        zones: &Vec<DisasterZone>,
        vendors: &Vec<Vendor>,
        vouchers: &Vec<Voucher>,
        verified: &Vec<String>,
    ) -> (restored: Option<AidDistributorState>)
        ensures
            match restored {
                Some(state) => {
                    &&& records_consistent(zones@, vendors@, vouchers@, verified@)
                    &&& state.wf()
                    &&& state@ == records_view(zones@, vendors@, vouchers@, verified@)
                },
                None => !records_consistent(zones@, vendors@, vouchers@, verified@),
            },
    {
        let disaster_zones = match zones_from_records(zones) {
            Some(map) => map,
            None => {
                return None;
            },
        };
        proof {
            disaster_zones.lemma_view_is_entries();
        }
        let vendor_map = match vendors_from_records(vendors) {
            Some(map) => map,
            None => {
                return None;
            },
        };
        let voucher_map = match vouchers_from_records(vouchers, &disaster_zones) {
            Some(map) => map,
            None => {
                return None;
            },
        };
        let verified_map = match verified_from_records(verified) {
            Some(map) => map,
            None => {
                return None;
            },
        };
        let state = AidDistributorState {
            disaster_zones,
            vendors: vendor_map,
            vouchers: voucher_map,
            verified_beneficiaries: verified_map,
        };
        proof {
            state.lemma_unfold();
            state.disaster_zones.lemma_view_is_entries();
            state.vendors.lemma_view_is_entries();
            state.vouchers.lemma_view_is_entries();
            state.verified_beneficiaries.lemma_view_is_entries();
        }
        Some(state)
    }
}

} // verus!
