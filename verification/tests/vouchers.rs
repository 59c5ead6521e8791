use aid_distributor::error::Error;
use aid_distributor::state::AidDistributorState;
use aid_distributor::types::VoucherStatus;

fn s(text: &str) -> String {
    text.to_string()
}

fn state_with_zone(zone_id: &str, budget: u64) -> AidDistributorState {
    let mut state = AidDistributorState::empty();
    assert_eq!(state.internal_add_zone(s(zone_id), s("Zone"), budget), Ok(()));
    state
}

#[test]
fn issuing_reserves_budget_and_refuses_what_the_zone_lacks() {
    let mut state = state_with_zone("Z1", 1000);
    let id = state.internal_issue_voucher(s("B1"), s("Z1"), 300, 7, "1700000000").unwrap();
    assert_eq!(id, "Z1_B1_1700000000");
    assert_eq!(state.disaster_zones().get(&s("Z1")).unwrap().budget_remaining, 700);

    let refused = state.internal_issue_voucher(s("B1"), s("Z1"), 800, 7, "1700000001");
    assert_eq!(refused, Err(Error::InsufficientBudget));
    assert_eq!(state.disaster_zones().get(&s("Z1")).unwrap().budget_remaining, 700);
    assert_eq!(state.disaster_zones().get(&s("Z1")).unwrap().budget_allocated_total, 1000);
    assert!(state.vouchers().get(&s("Z1_B1_1700000001")).is_none());
}

#[test]
fn issued_voucher_holds_what_was_asked() {
    let mut state = state_with_zone("Z1", 1000);
    let id = state.internal_issue_voucher(s("B1"), s("Z1"), 300, 7, "100").unwrap();
    let voucher = state.vouchers().get(&id).unwrap();
    assert_eq!(voucher.voucher_id, "Z1_B1_100");
    assert_eq!(voucher.beneficiary_id, "B1");
    assert_eq!(voucher.zone_id, "Z1");
    assert_eq!(voucher.amount, 300);
    assert_eq!(voucher.expiry_timestamp, 107);
    assert_eq!(voucher.status, VoucherStatus::Issued);
}

#[test]
fn issuing_from_an_unknown_zone_is_not_found() {
    let mut state = state_with_zone("Z1", 1000);
    assert_eq!(
        state.internal_issue_voucher(s("B1"), s("Z2"), 1, 7, "100"),
        Err(Error::NotFound)
    );
    assert_eq!(state.disaster_zones().get(&s("Z1")).unwrap().budget_remaining, 1000);
}

#[test]
fn issuing_the_whole_budget_leaves_nothing() {
    let mut state = state_with_zone("Z1", 1000);
    assert!(state.internal_issue_voucher(s("B1"), s("Z1"), 1000, 7, "100").is_ok());
    assert_eq!(state.disaster_zones().get(&s("Z1")).unwrap().budget_remaining, 0);
    assert_eq!(
        state.internal_issue_voucher(s("B2"), s("Z1"), 1, 7, "100"),
        Err(Error::InsufficientBudget)
    );
}

#[test]
fn issuing_nothing_changes_no_budget() {
    let mut state = state_with_zone("Z1", 1000);
    assert!(state.internal_issue_voucher(s("B1"), s("Z1"), 0, 7, "100").is_ok());
    assert_eq!(state.disaster_zones().get(&s("Z1")).unwrap().budget_remaining, 1000);
}

#[test]
fn issuing_debits_only_its_own_zone() {
    let mut state = state_with_zone("Z1", 1000);
    assert_eq!(state.internal_add_zone(s("Z2"), s("Other"), 500), Ok(()));
    assert!(state.internal_issue_voucher(s("B1"), s("Z1"), 250, 7, "100").is_ok());
    let z1 = state.disaster_zones().get(&s("Z1")).unwrap();
    assert_eq!((z1.budget_remaining, z1.budget_allocated_total), (750, 1000));
    let z2 = state.disaster_zones().get(&s("Z2")).unwrap();
    assert_eq!((z2.budget_remaining, z2.budget_allocated_total), (500, 500));
    assert_eq!(z2.name, "Other");
}

#[test]
fn issuing_at_another_time_gives_another_voucher() {
    let mut state = state_with_zone("Z1", 1000);
    let first = state.internal_issue_voucher(s("B1"), s("Z1"), 100, 7, "100").unwrap();
    let second = state.internal_issue_voucher(s("B1"), s("Z1"), 100, 7, "101").unwrap();
    assert_ne!(first, second);
    assert!(state.vouchers().get(&first).is_some());
    assert!(state.vouchers().get(&second).is_some());
    assert_eq!(state.disaster_zones().get(&s("Z1")).unwrap().budget_remaining, 800);
}

#[test]
fn issuing_under_a_taken_identity_is_refused() {
    let mut state = state_with_zone("Z1", 1000);
    let first = state.internal_issue_voucher(s("B1"), s("Z1"), 100, 7, "100").unwrap();
    assert_eq!(
        state.internal_issue_voucher(s("B1"), s("Z1"), 40, 9, "100"),
        Err(Error::AlreadyExists)
    );
    let voucher = state.vouchers().get(&first).unwrap();
    assert_eq!(voucher.amount, 100);
    assert_eq!(voucher.expiry_timestamp, 107);
    assert_eq!(voucher.status, VoucherStatus::Issued);
    assert_eq!(state.vouchers().len(), 1);
    assert_eq!(state.disaster_zones().get(&s("Z1")).unwrap().budget_remaining, 900);
}

#[test]
fn redeemed_voucher_is_not_replaced_by_a_new_issuance() {
    let mut state = state_with_zone("Z1", 1000);
    let id = state.internal_issue_voucher(s("B1"), s("Z1"), 300, 7, "100").unwrap();
    assert_eq!(state.internal_redeem_voucher(id.clone(), "100"), Ok(()));
    assert_eq!(
        state.internal_issue_voucher(s("B1"), s("Z1"), 300, 7, "100"),
        Err(Error::AlreadyExists)
    );
    assert_eq!(state.vouchers().get(&id).unwrap().status, VoucherStatus::Redeemed);
    assert_eq!(state.internal_redeem_voucher(id, "100"), Err(Error::AlreadyRedeemed));
    assert_eq!(state.disaster_zones().get(&s("Z1")).unwrap().budget_remaining, 700);
}

#[test]
fn refusals_of_issuance_come_in_order() {
    let mut state = state_with_zone("Z1", 100);
    assert!(state.internal_issue_voucher(s("B1"), s("Z1"), 60, 7, "100").is_ok());
    assert_eq!(
        state.internal_issue_voucher(s("B1"), s("Z1"), 60, 7, "100"),
        Err(Error::InsufficientBudget)
    );
    assert_eq!(
        state.internal_issue_voucher(s("B1"), s("Z1"), 40, 7, "100"),
        Err(Error::AlreadyExists)
    );
    assert_eq!(
        state.internal_issue_voucher(s("B1"), s("Z9"), 40, 7, "100"),
        Err(Error::NotFound)
    );
}

#[test]
fn underscores_in_zone_and_beneficiary_do_not_make_identities_meet() {
    let mut state = state_with_zone("a_b", 1000);
    assert_eq!(state.internal_add_zone(s("a"), s("Zone"), 1000), Ok(()));
    let first = state.internal_issue_voucher(s("c"), s("a_b"), 300, 7, "100").unwrap();
    let second = state.internal_issue_voucher(s("b_c"), s("a"), 200, 7, "100").unwrap();
    assert_eq!(first, "a\\_b_c_100");
    assert_eq!(second, "a_b\\_c_100");
    assert_ne!(first, second);
    assert_eq!(state.vouchers().len(), 2);
    let v1 = state.vouchers().get(&first).unwrap();
    assert_eq!((v1.zone_id.as_str(), v1.beneficiary_id.as_str(), v1.amount), ("a_b", "c", 300));
    let v2 = state.vouchers().get(&second).unwrap();
    assert_eq!((v2.zone_id.as_str(), v2.beneficiary_id.as_str(), v2.amount), ("a", "b_c", 200));
    assert_eq!(state.disaster_zones().get(&s("a_b")).unwrap().budget_remaining, 700);
    assert_eq!(state.disaster_zones().get(&s("a")).unwrap().budget_remaining, 800);
}

#[test]
fn issuing_keeps_every_stored_voucher() {
    let mut state = state_with_zone("Z1", 1000);
    let first = state.internal_issue_voucher(s("B1"), s("Z1"), 100, 7, "100").unwrap();
    assert_eq!(state.internal_redeem_voucher(first.clone(), "101"), Ok(()));
    let second = state.internal_issue_voucher(s("B1"), s("Z1"), 50, 7, "102").unwrap();
    let third = state.internal_issue_voucher(s("B2"), s("Z1"), 25, 1, "102").unwrap();
    assert_eq!(state.vouchers().len(), 3);
    let v1 = state.vouchers().get(&first).unwrap();
    assert_eq!((v1.amount, v1.expiry_timestamp, v1.status), (100, 107, VoucherStatus::Redeemed));
    let v2 = state.vouchers().get(&second).unwrap();
    assert_eq!((v2.amount, v2.expiry_timestamp, v2.status), (50, 109, VoucherStatus::Issued));
    let v3 = state.vouchers().get(&third).unwrap();
    assert_eq!((v3.amount, v3.expiry_timestamp, v3.status), (25, 103, VoucherStatus::Issued));
}

#[test]
fn a_timestamp_that_is_no_number_reads_as_zero() {
    let mut state = state_with_zone("Z1", 1000);
    let id = state.internal_issue_voucher(s("B1"), s("Z1"), 10, 7, "genesis").unwrap();
    assert_eq!(id, "Z1_B1_genesis");
    assert_eq!(state.vouchers().get(&id).unwrap().expiry_timestamp, 7);
}

#[test]
fn voucher_expired_one_tick_after_issuance_with_zero_days() {
    let mut state = state_with_zone("Z1", 1000);
    let id = state.internal_issue_voucher(s("B1"), s("Z1"), 300, 0, "5000").unwrap();
    assert_eq!(state.redemption_amount(&id, "5001"), Err(Error::Expired));
    assert_eq!(state.internal_redeem_voucher(id.clone(), "5001"), Err(Error::Expired));
    assert_eq!(state.vouchers().get(&id).unwrap().status, VoucherStatus::Issued);
}

#[test]
fn voucher_can_be_redeemed_at_its_expiry() {
    let mut state = state_with_zone("Z1", 1000);
    let id = state.internal_issue_voucher(s("B1"), s("Z1"), 300, 0, "5000").unwrap();
    assert_eq!(state.redemption_amount(&id, "5000"), Ok(300));
    assert_eq!(state.internal_redeem_voucher(id.clone(), "5000"), Ok(()));
    assert_eq!(state.vouchers().get(&id).unwrap().status, VoucherStatus::Redeemed);
}

#[test]
fn redeeming_pays_the_amount_and_leaves_the_budget() {
    let mut state = state_with_zone("Z1", 1000);
    let id = state.internal_issue_voucher(s("B1"), s("Z1"), 300, 7, "100").unwrap();
    assert_eq!(state.redemption_amount(&id, "103"), Ok(300));
    assert_eq!(state.vouchers().get(&id).unwrap().status, VoucherStatus::Issued);
    assert_eq!(state.internal_redeem_voucher(id.clone(), "103"), Ok(()));
    let voucher = state.vouchers().get(&id).unwrap();
    assert_eq!(voucher.status, VoucherStatus::Redeemed);
    assert_eq!(voucher.amount, 300);
    assert_eq!(voucher.beneficiary_id, "B1");
    assert_eq!(voucher.zone_id, "Z1");
    assert_eq!(voucher.expiry_timestamp, 107);
    let zone = state.disaster_zones().get(&s("Z1")).unwrap();
    assert_eq!((zone.budget_remaining, zone.budget_allocated_total), (700, 1000));
}

#[test]
fn second_redemption_is_already_redeemed() {
    let mut state = state_with_zone("Z1", 1000);
    let id = state.internal_issue_voucher(s("B1"), s("Z1"), 300, 7, "100").unwrap();
    assert_eq!(state.internal_redeem_voucher(id.clone(), "103"), Ok(()));
    assert_eq!(state.redemption_amount(&id, "104"), Err(Error::AlreadyRedeemed));
    assert_eq!(state.internal_redeem_voucher(id.clone(), "104"), Err(Error::AlreadyRedeemed));
    assert_eq!(state.vouchers().get(&id).unwrap().status, VoucherStatus::Redeemed);
}

#[test]
fn second_redemption_after_expiry_is_still_already_redeemed() {
    let mut state = state_with_zone("Z1", 1000);
    let id = state.internal_issue_voucher(s("B1"), s("Z1"), 300, 7, "100").unwrap();
    assert_eq!(state.internal_redeem_voucher(id.clone(), "103"), Ok(()));
    assert_eq!(state.redemption_amount(&id, "9999"), Err(Error::AlreadyRedeemed));
    assert_eq!(state.internal_redeem_voucher(id, "9999"), Err(Error::AlreadyRedeemed));
}

#[test]
fn expired_voucher_never_redeemed_is_expired() {
    let mut state = state_with_zone("Z1", 1000);
    let id = state.internal_issue_voucher(s("B1"), s("Z1"), 300, 7, "100").unwrap();
    assert_eq!(state.redemption_amount(&id, "108"), Err(Error::Expired));
    assert_eq!(state.internal_redeem_voucher(id.clone(), "108"), Err(Error::Expired));
    assert_eq!(state.vouchers().get(&id).unwrap().status, VoucherStatus::Issued);
    assert_eq!(state.disaster_zones().get(&s("Z1")).unwrap().budget_remaining, 700);
}

#[test]
fn redeeming_an_unknown_voucher_is_not_found() {
    let mut state = state_with_zone("Z1", 1000);
    assert_eq!(state.redemption_amount(&s("Z1_B1_100"), "100"), Err(Error::NotFound));
    assert_eq!(state.internal_redeem_voucher(s("Z1_B1_100"), "100"), Err(Error::NotFound));
}

#[test]
fn redemption_does_not_ask_for_a_vendor_or_a_verification() {
    let mut state = state_with_zone("Z1", 1000);
    let id = state.internal_issue_voucher(s("unverified"), s("Z1"), 5, 1, "10").unwrap();
    assert!(state.needs_proof(&s("unverified")));
    assert!(state.vendors().get(&s("anyone")).is_none());
    assert_eq!(state.internal_redeem_voucher(id, "10"), Ok(()));
}
