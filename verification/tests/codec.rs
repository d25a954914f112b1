//! The account codec: round trips, agreement with the ledger
//! ecosystem's own encoder, and rejection of malformed strings.

use sp_core::crypto::Ss58Codec;
use sp_core::Pair as _;
use sugarfunge_api::error::GatewayError;
use sugarfunge_api::keys::resolve;
use sugarfunge_api::ss58::{decode, encode, AccountIdentity};

fn identity_from(bytes: [u8; 32]) -> AccountIdentity {
    AccountIdentity::from_bytes(bytes.to_vec()).expect("32 bytes make an identity")
}

#[test]
fn roundtrip_simple_key() {
    let mut bytes = [0u8; 32];
    for (i, b) in bytes.iter_mut().enumerate() {
        *b = i as u8;
    }
    let id = identity_from(bytes);
    let s = encode(&id);
    let back = decode(s.as_str()).expect("canonical string decodes");
    assert_eq!(back.to_bytes(), bytes.to_vec());
}

#[test]
fn roundtrip_all_zero_and_all_ff() {
    for fill in [0u8, 0xff] {
        let id = identity_from([fill; 32]);
        let s = encode(&id);
        let back = decode(s.as_str()).expect("canonical string decodes");
        assert_eq!(back.to_bytes(), vec![fill; 32]);
    }
}

#[test]
fn encode_agrees_with_ledger_encoder() {
    let pair = <sp_core::sr25519::Pair as sp_core::Pair>::from_string("//Alice", None)
        .expect("dev phrase derives");
    let public = pair.public();
    let reference = public.to_ss58check();
    let id = AccountIdentity::from_bytes(public.0.to_vec()).unwrap();
    assert_eq!(encode(&id), reference);
}

#[test]
fn decode_agrees_with_ledger_encoder() {
    let pair = <sp_core::sr25519::Pair as sp_core::Pair>::from_string("//Bob", None)
        .expect("dev phrase derives");
    let public = pair.public();
    let reference = public.to_ss58check();
    let id = decode(reference.as_str()).expect("the ledger's own encoding decodes");
    assert_eq!(id.to_bytes(), public.0.to_vec());
}

#[test]
fn resolved_account_encodes_like_ledger() {
    let cap = resolve("//gateway-test-seed").expect("phrase derives");
    let ours = encode(&cap.account());
    let pair =
        <sp_core::sr25519::Pair as sp_core::Pair>::from_string("//gateway-test-seed", None)
            .unwrap();
    assert_eq!(ours, pair.public().to_ss58check());
}

#[test]
fn decode_rejects_bad_charset() {
    // '0', 'O', 'I' and 'l' are outside the alphabet.
    assert_eq!(decode("5GrwvaEF5zXb26Fz9rcQpDWS57CtERHpNehXCPcN0HGKutQY").err(), Some(GatewayError::InvalidAccount));
    assert_eq!(decode("not an address at all!").err(), Some(GatewayError::InvalidAccount));
}

#[test]
fn decode_rejects_wrong_length() {
    let id = identity_from([7u8; 32]);
    let s = encode(&id);
    let shorter = &s[..s.len() - 1];
    assert_eq!(decode(shorter).err(), Some(GatewayError::InvalidAccount));
    assert_eq!(decode("").err(), Some(GatewayError::InvalidAccount));
    assert_eq!(decode("2").err(), Some(GatewayError::InvalidAccount));
}

#[test]
fn decode_rejects_bad_checksum() {
    let id = identity_from([9u8; 32]);
    let s = encode(&id);
    // Swap the last character for a different alphabet character.
    let last = s.chars().last().unwrap();
    let replacement = if last == '2' { '3' } else { '2' };
    let mut tampered: String = s[..s.len() - 1].to_string();
    tampered.push(replacement);
    assert_eq!(decode(tampered.as_str()).err(), Some(GatewayError::InvalidAccount));
}

#[test]
fn decode_rejects_foreign_network_prefix() {
    let pair = <sp_core::sr25519::Pair as sp_core::Pair>::from_string("//Alice", None).unwrap();
    let public = pair.public();
    // A polkadot-format address carries prefix 0, not the generic 42.
    let foreign =
        public.to_ss58check_with_version(sp_core::crypto::Ss58AddressFormat::custom(0));
    assert_eq!(decode(foreign.as_str()).err(), Some(GatewayError::InvalidAccount));
}

#[test]
fn decode_rejects_leading_padding() {
    let id = identity_from([3u8; 32]);
    let s = encode(&id);
    let padded = format!("1{}", s);
    assert_eq!(decode(padded.as_str()).err(), Some(GatewayError::InvalidAccount));
}

#[test]
fn invalid_account_message() {
    assert_eq!(GatewayError::InvalidAccount.message().as_str(), "Invalid account");
}
