//! The operation handlers end to end against a mock ledger: parameter
//! validation before any ledger call, the transfer scenario, and the
//! missing-event scenario.

use sugarfunge_api::account::{finish_fund, prepare_fund, FundAccountInput};
use sugarfunge_api::call::CallDescriptor;
use sugarfunge_api::dex::{
    prepare_add_liquidity, prepare_buy_assets, prepare_remove_liquidity, prepare_sell_assets,
    AddLiquidityInput, BuyAssetsInput, RemoveLiquidityInput, SellAssetsInput,
};
use sugarfunge_api::error::GatewayError;
use sugarfunge_api::escrow::{
    finish_create_escrow, prepare_create_escrow, prepare_deposit_assets, CreateEscrowInput,
    DepositAssetsInput,
};
use sugarfunge_api::event::EventRecord;
use sugarfunge_api::keys::resolve;
use sugarfunge_api::outcome::SubmissionOutcome;
use sugarfunge_api::ss58::encode;
use sugarfunge_api::user::SeedLookup;

const SEED_S: &str = "//handlers-test-seed";

fn lookup() -> SeedLookup {
    SeedLookup::Retrieved(SEED_S.to_string())
}

fn address_of(seed: &str) -> String {
    encode(&resolve(seed).expect("phrase derives").account())
}

#[test]
fn buy_assets_rejects_length_mismatch() {
    for (ids, amounts) in [(0usize, 1usize), (1, 0), (2, 5), (5, 2)] {
        let req = BuyAssetsInput {
            exchange_id: 1,
            asset_ids: vec![7; ids],
            asset_amounts_out: vec![10; amounts],
            max_currency: 100,
            to: address_of("//Bob"),
        };
        let r = prepare_buy_assets(&lookup(), &req);
        assert_eq!(r.err(), Some(GatewayError::ParameterMismatch));
    }
}

#[test]
fn buy_assets_accepts_matching_lengths() {
    for n in [0usize, 1, 4] {
        let req = BuyAssetsInput {
            exchange_id: 1,
            asset_ids: vec![7; n],
            asset_amounts_out: vec![10; n],
            max_currency: 100,
            to: address_of("//Bob"),
        };
        let (_cap, call) = prepare_buy_assets(&lookup(), &req).expect("valid request prepares");
        assert!(matches!(call, CallDescriptor::BuyAssets { .. }));
    }
}

#[test]
fn sell_assets_rejects_length_mismatch() {
    let req = SellAssetsInput {
        exchange_id: 1,
        asset_ids: vec![1, 2, 3],
        asset_amounts_in: vec![5, 5],
        min_currency: 1,
        to: address_of("//Bob"),
    };
    assert_eq!(
        prepare_sell_assets(&lookup(), &req).err(),
        Some(GatewayError::ParameterMismatch)
    );
}

#[test]
fn add_liquidity_rejects_any_mismatch() {
    let good = address_of("//Bob");
    for (ids, amounts, maxima) in [(1usize, 2usize, 1usize), (2, 2, 1), (0, 0, 3)] {
        let req = AddLiquidityInput {
            to: good.clone(),
            exchange_id: 1,
            asset_ids: vec![1; ids],
            asset_amounts: vec![1; amounts],
            max_currencies: vec![1; maxima],
        };
        assert_eq!(
            prepare_add_liquidity(&lookup(), &req).err(),
            Some(GatewayError::ParameterMismatch)
        );
    }
}

#[test]
fn remove_liquidity_rejects_any_mismatch() {
    let good = address_of("//Bob");
    for (a, b, c, d) in [(1usize, 1usize, 1usize, 2usize), (3, 2, 3, 3), (1, 1, 0, 1)] {
        let req = RemoveLiquidityInput {
            to: good.clone(),
            exchange_id: 1,
            asset_ids: vec![1; a],
            liquidities: vec![1; b],
            min_currencies: vec![1; c],
            min_assets: vec![1; d],
        };
        assert_eq!(
            prepare_remove_liquidity(&lookup(), &req).err(),
            Some(GatewayError::ParameterMismatch)
        );
    }
}

#[test]
fn deposit_rejects_length_mismatch() {
    let req = DepositAssetsInput {
        escrow: address_of("//Bob"),
        class_id: 2,
        asset_ids: vec![1],
        amounts: vec![],
    };
    assert_eq!(
        prepare_deposit_assets(&lookup(), &req).err(),
        Some(GatewayError::ParameterMismatch)
    );
    assert_eq!(
        GatewayError::ParameterMismatch.message().as_str(),
        "Parameter vector lengths differ"
    );
}

#[test]
fn prepare_rejects_malformed_destination_before_any_call() {
    let req = FundAccountInput { to: "not-an-address".to_string(), amount: 1 };
    assert_eq!(prepare_fund(&lookup(), &req).err(), Some(GatewayError::InvalidAccount));
}

#[test]
fn prepare_reports_missing_seed_and_failed_lookup() {
    let req = FundAccountInput { to: address_of("//Bob"), amount: 1 };
    assert_eq!(
        prepare_fund(&SeedLookup::NoAttribute, &req).err(),
        Some(GatewayError::SeedNotProvisioned)
    );
    assert_eq!(
        GatewayError::SeedNotProvisioned.message().as_str(),
        "Not found user Attributes"
    );
    assert_eq!(
        prepare_fund(&SeedLookup::Unreachable, &req).err(),
        Some(GatewayError::UpstreamUnavailable)
    );
    assert_eq!(
        GatewayError::UpstreamUnavailable.message().as_str(),
        "Failed to find user::getAttributes"
    );
}

#[test]
fn transfer_one_hundred_units_end_to_end() {
    // Transfer 100 units from the account of seed S to account B: the
    // mock ledger finalizes with the matching transfer event, and the
    // handler returns exactly those fields.
    let cap_a = resolve(SEED_S).expect("phrase derives");
    let account_a = cap_a.account();
    let account_b = resolve("//Bob").expect("phrase derives").account();
    let addr_a = encode(&account_a);
    let addr_b = encode(&account_b);

    let req = FundAccountInput { to: addr_b.clone(), amount: 100 };
    let (cap, call) = prepare_fund(&lookup(), &req).expect("a valid request prepares");
    assert_eq!(cap.seed_phrase(), SEED_S);
    assert!(matches!(call, CallDescriptor::Transfer { amount: 100, .. }));

    let outcome = SubmissionOutcome::Finalized(vec![
        EventRecord::Unrelated,
        EventRecord::Transfer { from: account_a, to: account_b, amount: 100 },
    ]);
    let out = finish_fund(&outcome).expect("the transfer event is extracted");
    assert_eq!(out.from, addr_a);
    assert_eq!(out.to, addr_b);
    assert_eq!(out.amount, 100);
}

#[test]
fn create_escrow_without_created_event_is_bad_request() {
    // The finalized log holds only an unrelated event: the handler
    // reports the missing escrow-created event, not a success.
    let owner = address_of("//Bob");
    let req = CreateEscrowInput { owner };
    let (_cap, call) = prepare_create_escrow(&lookup(), &req).expect("a valid request prepares");
    assert!(matches!(call, CallDescriptor::CreateEscrow { .. }));

    let outcome = SubmissionOutcome::Finalized(vec![EventRecord::Unrelated]);
    let err = finish_create_escrow(&outcome).expect_err("no event, no success");
    let message = err.message();
    assert_eq!(
        message.as_str(),
        "Failed to find sugarfunge::escrow::events::Created"
    );
}

#[test]
fn rejected_submission_surfaces_reason() {
    let outcome = SubmissionOutcome::Rejected("Inability to pay some fees".to_string());
    let err = finish_fund(&outcome).expect_err("a rejection is no success");
    assert_eq!(err.message().as_str(), "Inability to pay some fees");
}

#[test]
fn pending_submission_is_upstream_fault() {
    let outcome = SubmissionOutcome::Pending;
    assert_eq!(finish_fund(&outcome).err(), Some(GatewayError::UpstreamUnavailable));
}

#[test]
fn garbled_event_payload_is_server_fault() {
    let outcome = SubmissionOutcome::Finalized(vec![EventRecord::Garbled(
        sugarfunge_api::event::EventTag::BalancesTransfer,
    )]);
    assert_eq!(finish_fund(&outcome).err(), Some(GatewayError::EventDecodeError));
}
