//! The identity-provider flows: reading a seed out of a user's
//! attributes, the token endpoint's outcomes, and the verification and
//! provisioning decisions.

use sugarfunge_api::dex::{finish_create, prepare_create, CreateDexInput, Currency};
use sugarfunge_api::event::EventRecord;
use sugarfunge_api::keys::resolve;
use sugarfunge_api::outcome::SubmissionOutcome;
use sugarfunge_api::ss58::encode;
use sugarfunge_api::user::{
    insert_seed_response, seed_from_attributes, token_outcome, verify_seed_decision,
    verify_seed_response, SeedInsertion, SeedLookup, SeedVerification, TokenFetch,
    UserAtributes,
};

#[test]
fn seed_from_attributes_takes_first_stored_phrase() {
    let attrs = Some(UserAtributes {
        user_seed: vec!["//stored-phrase".to_string(), "//ignored-second".to_string()],
    });
    let out = seed_from_attributes(&attrs);
    assert_eq!(out.seed.as_deref(), Some("//stored-phrase"));
}

#[test]
fn seed_from_attributes_empty_means_empty_string() {
    let none = seed_from_attributes(&None);
    assert_eq!(none.seed.as_deref(), Some(""));
    let empty = seed_from_attributes(&Some(UserAtributes { user_seed: vec![] }));
    assert_eq!(empty.seed.as_deref(), Some(""));
}

#[test]
fn token_outcome_maps_each_answer() {
    let ok = token_outcome(&TokenFetch::Body("tok-123".to_string())).unwrap();
    assert_eq!(ok.access_token.as_str(), "tok-123");

    let refused = token_outcome(&TokenFetch::BadStatus).unwrap_err();
    assert_eq!(refused.error.as_str(), "Error request");
    assert_eq!(refused.message.as_str(), "Error when requesting token");

    let silent = token_outcome(&TokenFetch::Unreachable).unwrap_err();
    assert_eq!(silent.error.as_str(), "Unknown");
    assert_eq!(silent.message.as_str(), "Error Unknown");
}

#[test]
fn verify_seed_decides_per_lookup() {
    assert!(matches!(
        verify_seed_decision(&SeedLookup::Retrieved("//x".to_string())),
        SeedVerification::AlreadyProvisioned
    ));
    assert!(matches!(
        verify_seed_decision(&SeedLookup::NoAttribute),
        SeedVerification::NeedsInsert
    ));
    assert!(matches!(
        verify_seed_decision(&SeedLookup::Unreachable),
        SeedVerification::LookupFailed
    ));

    let done = verify_seed_response(&SeedVerification::AlreadyProvisioned);
    assert!(done.error.is_none());
    assert_eq!(done.message.as_str(), "User with atrribute");

    let failed = verify_seed_response(&SeedVerification::LookupFailed);
    assert_eq!(failed.error.as_deref(), Some("Unknown Error"));
    assert_eq!(failed.message.as_str(), "Unknown Error");
}

#[test]
fn insert_seed_response_per_store_answer() {
    let stored = insert_seed_response(&SeedInsertion::Stored).unwrap();
    assert!(stored.error.is_none());
    assert_eq!(stored.message.as_str(), "Attribute insert to user attributes");

    let refused = insert_seed_response(&SeedInsertion::Refused).unwrap_err();
    assert_eq!(refused.error.as_deref(), Some("Error Insert Attribute"));
    assert_eq!(refused.message.as_str(), "Error when insert attribute to user");

    let lost = insert_seed_response(&SeedInsertion::Unreachable).unwrap_err();
    assert_eq!(lost.error.as_deref(), Some("Error Insert Attribute"));
    assert_eq!(lost.message.as_str(), "Unknown Error");
}

#[test]
fn create_exchange_round() {
    let lookup = SeedLookup::Retrieved("//dex-operator".to_string());
    let req = CreateDexInput {
        exchange_id: 5,
        currency: Currency { class_id: 1, asset_id: 2 },
        asset_class_id: 3,
        lp_class_id: 4,
    };
    let (_cap, _call) = prepare_create(&lookup, &req).expect("a valid request prepares");

    let who = resolve("//dex-operator").unwrap().account();
    let who_addr = encode(&who);
    let outcome = SubmissionOutcome::Finalized(vec![EventRecord::ExchangeCreated {
        exchange_id: 5,
        who,
    }]);
    let out = finish_create(&outcome).expect("the created event is extracted");
    assert_eq!(out.exchange_id, 5);
    assert_eq!(out.who, who_addr);
}
