//! Key material: seed determinism, fresh-seed generation, and the
//! account-creation operation.

use std::collections::HashSet;

use sp_core::crypto::Ss58Codec;
use sp_core::Pair as _;
use sugarfunge_api::account::create;
use sugarfunge_api::error::GatewayError;
use sugarfunge_api::keys::{generate_seed, generate_seed_phrase, resolve};
use sugarfunge_api::ss58::encode;

#[test]
fn resolve_is_deterministic() {
    let a = resolve("//same-seed-every-time").expect("phrase derives");
    let b = resolve("//same-seed-every-time").expect("phrase derives");
    assert_eq!(a.account().to_bytes(), b.account().to_bytes());
    assert_eq!(a.seed_phrase(), b.seed_phrase());
}

#[test]
fn resolve_matches_ledger_derivation() {
    let cap = resolve("//Alice").expect("dev phrase derives");
    let pair = <sp_core::sr25519::Pair as sp_core::Pair>::from_string("//Alice", None).unwrap();
    assert_eq!(cap.account().to_bytes(), pair.public().0.to_vec());
}

#[test]
fn resolve_rejects_malformed_phrase() {
    // A password marker with empty phrase and path is not a well-formed
    // secret URI.
    let r = resolve("not a mnemonic and not a derivation path %%");
    assert_eq!(r.err(), Some(GatewayError::InvalidSeed));
    assert_eq!(
        GatewayError::InvalidSeed.message().as_str(),
        "Invalid seed"
    );
}

#[test]
fn generated_phrases_never_repeat() {
    let mut seen: HashSet<String> = HashSet::new();
    for _ in 0..10_000 {
        let phrase = generate_seed_phrase();
        assert_eq!(phrase.len(), 66);
        assert!(phrase.starts_with("//"));
        assert!(phrase[2..].chars().all(|c| c.is_ascii_hexdigit()));
        assert!(seen.insert(phrase), "a fresh seed repeated");
    }
}

#[test]
fn generated_seed_resolves_to_its_account() {
    let mut seen: HashSet<String> = HashSet::new();
    for _ in 0..20 {
        let g = generate_seed().expect("a generated phrase derives");
        let cap = resolve(g.seed.as_str()).expect("the same phrase derives again");
        assert_eq!(cap.account().to_bytes(), g.account.to_bytes());
        assert!(seen.insert(g.seed.clone()), "a fresh seed repeated");
    }
}

#[test]
fn create_returns_seed_and_matching_address() {
    let out = create().expect("account creation succeeds");
    assert_eq!(out.seed.len(), 66);
    assert!(out.seed.starts_with("//"));
    assert!(out.seed[2..].chars().all(|c| c.is_ascii_hexdigit() && !c.is_ascii_uppercase()));
    let cap = resolve(out.seed.as_str()).expect("the returned seed derives");
    assert_eq!(encode(&cap.account()), out.account);
    let decoded = sugarfunge_api::ss58::decode(out.account.as_str())
        .expect("the returned address is a well-formed account string");
    assert_eq!(decoded.to_bytes(), cap.account().to_bytes());
    let pair =
        <sp_core::sr25519::Pair as sp_core::Pair>::from_string(out.seed.as_str(), None).unwrap();
    assert_eq!(out.account, pair.public().to_ss58check());
}
