use aid_distributor::error::Error;
use aid_distributor::state::AidDistributorState;
use aid_distributor::types::VoucherStatus;
use aid_distributor::{AidDistributor, GENESIS_SUPPLY, TOKEN_NAME, TOKEN_SYMBOL};

fn s(text: &str) -> String {
    text.to_string()
}

fn genesis() -> AidDistributorState {
    <AidDistributorState as AidDistributor>::new().unwrap()
}

#[test]
fn genesis_is_empty_and_names_the_token() {
    let state = genesis();
    assert_eq!(state.disaster_zones().len(), 0);
    assert_eq!(state.vendors().len(), 0);
    assert_eq!(state.vouchers().len(), 0);
    assert_eq!(state.verified_beneficiaries().len(), 0);
    assert_eq!(TOKEN_NAME, "AidUSDC");
    assert_eq!(TOKEN_SYMBOL, "USDC");
    assert_eq!(GENESIS_SUPPLY, 1_000_000_000_000);
}

#[test]
fn zone_budget_scenario_through_the_entry_points() {
    let mut state = genesis();
    assert_eq!(state.add_disaster_zone(s("Z1"), s("Flood North"), 1000), Ok(()));
    assert_eq!(
        state.issue_voucher(s("B1"), s("Z1"), 300, 7, s("1700000000")),
        Ok(s("Z1_B1_1700000000"))
    );
    assert_eq!(state.disaster_zones().get(&s("Z1")).unwrap().budget_remaining, 700);
    assert_eq!(
        state.issue_voucher(s("B1"), s("Z1"), 800, 7, s("1700000001")),
        Err(Error::InsufficientBudget.message())
    );
    assert_eq!(state.disaster_zones().get(&s("Z1")).unwrap().budget_remaining, 700);
}

#[test]
fn entry_points_report_errors_as_text() {
    let mut state = genesis();
    assert_eq!(state.add_disaster_zone(s("Z1"), s("Flood North"), 1000), Ok(()));
    assert_eq!(
        state.add_disaster_zone(s("Z1"), s("Again"), 1),
        Err(s("Already exists"))
    );
    assert_eq!(state.allocate_budget(s("Z2"), 1), Err(s("Not found")));
    assert_eq!(state.allocate_budget(s("Z1"), 1), Ok(()));
    assert_eq!(state.register_vendor(s("V1"), s("food")), Ok(()));
    assert_eq!(state.register_vendor(s("V1"), s("food")), Err(s("Already exists")));
    assert_eq!(
        state.issue_voucher(s("B1"), s("Z9"), 1, 1, s("1")),
        Err(s("Not found"))
    );
    assert_eq!(
        state.issue_voucher(s("B1"), s("Z1"), 5000, 1, s("1")),
        Err(s("Insufficient budget"))
    );
    assert_eq!(state.issue_voucher(s("B1"), s("Z1"), 5, 1, s("7")), Ok(s("Z1_B1_7")));
    assert_eq!(
        state.issue_voucher(s("B1"), s("Z1"), 5, 1, s("7")),
        Err(s("Already exists"))
    );
    assert_eq!(state.disaster_zones().get(&s("Z1")).unwrap().budget_remaining, 996);
    assert_eq!(
        state.redeem_voucher(s("Z1_B1_1"), s("1"), Ok(())),
        Err(s("Not found"))
    );
}

#[test]
fn error_texts() {
    assert_eq!(Error::NotFound.message(), "Not found");
    assert_eq!(Error::AlreadyExists.message(), "Already exists");
    assert_eq!(Error::InsufficientBudget.message(), "Insufficient budget");
    assert_eq!(Error::AlreadyRedeemed.message(), "Voucher already redeemed");
    assert_eq!(Error::Expired.message(), "Voucher expired");
    assert_eq!(Error::InvalidAmount.message(), "Invalid amount");
    assert_eq!(Error::TransportError.message(), "MCP HTTP Error");
    assert_eq!(Error::EmptyProof.message(), "Empty response body");
}

#[test]
fn redemption_is_recorded_when_the_transfer_succeeded() {
    let mut state = genesis();
    assert_eq!(state.add_disaster_zone(s("Z1"), s("Flood North"), 1000), Ok(()));
    let id = state.issue_voucher(s("B1"), s("Z1"), 300, 7, s("100")).unwrap();
    assert_eq!(state.redemption_amount(&id, "101"), Ok(300));
    assert_eq!(state.redeem_voucher(id.clone(), s("101"), Ok(())), Ok(()));
    assert_eq!(state.vouchers().get(&id).unwrap().status, VoucherStatus::Redeemed);
    assert_eq!(
        state.redeem_voucher(id.clone(), s("102"), Ok(())),
        Err(s("Voucher already redeemed"))
    );
    assert_eq!(
        state.redeem_voucher(id, s("9999"), Ok(())),
        Err(s("Voucher already redeemed"))
    );
}

#[test]
fn failed_transfer_leaves_the_voucher_issued() {
    let mut state = genesis();
    assert_eq!(state.add_disaster_zone(s("Z1"), s("Flood North"), 1000), Ok(()));
    let id = state.issue_voucher(s("B1"), s("Z1"), 300, 7, s("100")).unwrap();
    assert_eq!(
        state.redeem_voucher(id.clone(), s("101"), Err(s("insufficient funds"))),
        Err(s("insufficient funds"))
    );
    assert_eq!(state.vouchers().get(&id).unwrap().status, VoucherStatus::Issued);
    assert_eq!(state.redemption_amount(&id, "101"), Ok(300));
    assert_eq!(state.redeem_voucher(id.clone(), s("101"), Ok(())), Ok(()));
    assert_eq!(state.vouchers().get(&id).unwrap().status, VoucherStatus::Redeemed);
}

#[test]
fn voucher_that_cannot_be_redeemed_fails_whatever_the_transfer_said() {
    let mut state = genesis();
    assert_eq!(state.add_disaster_zone(s("Z1"), s("Flood North"), 1000), Ok(()));
    let id = state.issue_voucher(s("B1"), s("Z1"), 300, 0, s("100")).unwrap();
    assert_eq!(
        state.redeem_voucher(id.clone(), s("101"), Err(s("insufficient funds"))),
        Err(s("Voucher expired"))
    );
    assert_eq!(
        state.redeem_voucher(id.clone(), s("101"), Ok(())),
        Err(s("Voucher expired"))
    );
    assert_eq!(state.vouchers().get(&id).unwrap().status, VoucherStatus::Issued);
}

#[test]
fn verification_through_the_entry_point() {
    let mut state = genesis();
    assert_eq!(
        state.verify_beneficiary_external(s("B1"), Ok(s(""))),
        Err(s("Empty response body"))
    );
    assert_eq!(
        state.verify_beneficiary_external(s("B1"), Err(s("timeout"))),
        Err(s("MCP HTTP Error: timeout"))
    );
    assert_eq!(state.verify_beneficiary_external(s("B1"), Ok(s("nope"))), Ok(false));
    assert!(state.needs_proof(&s("B1")));
    assert_eq!(state.verify_beneficiary_external(s("B1"), Ok(s("TRUE"))), Ok(true));
    assert!(!state.needs_proof(&s("B1")));
    assert_eq!(
        state.verify_beneficiary_external(s("B1"), Err(s("timeout"))),
        Ok(true)
    );
}
