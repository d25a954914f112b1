//! The identity-provider boundary, modeled as plain values: what a
//! user's attribute record yields as seed material, and the decisions
//! the gateway takes on it. The provider itself — an authenticated
//! key-value store — stays outside; its responses are handed in as
//! values.

use vstd::prelude::*;

use crate::error::GatewayError;
use crate::keys::resolve;
use crate::keys::sr25519_public_of;
use crate::keys::SigningCapability;

verus! {

/// The provider's token-endpoint response, reduced to the one field
/// the gateway uses.
#[derive(Debug)]
pub struct SugarTokenOutput {
    pub access_token: String,
}

/// The error envelope of a failed token request.
#[derive(Debug)]
pub struct ErrorMessageOutput {
    pub error: String,
    pub message: String,
}

/// A user record as the provider returns it.
#[derive(Debug)]
pub struct UserInfo {
    pub id: String,
    pub attributes: Option<UserAtributes>,
    pub email: String,
    pub email_verified: bool,
    pub username: String,
    pub first_name: String,
    pub last_name: String,
}

/// The attribute map of a user record, reduced to the one attribute
/// the gateway reads: the stored seed phrases.
#[derive(Debug)]
pub struct UserAtributes {
    pub user_seed: Vec<String>,
}

/// What a seed lookup yielded: the stored phrase, or an empty string
/// where the user has no seed attribute yet.
#[derive(Debug)]
pub struct UserSeedOutput {
    pub seed: Option<String>,
}

/// The response of the seed-provisioning flow.
#[derive(Debug)]
pub struct InsertUserSeedOutput {
    pub error: Option<String>,
    pub message: String,
}

/// The authenticated claims the gateway reads from a request.
#[derive(Debug)]
pub struct ClaimsWithEmail {
    pub sub: String,
    pub name: String,
    pub preferred_username: String,
    pub given_name: String,
    pub family_name: String,
    pub email: String,
}

/// A fresh account's seed and address, as the provisioning flow
/// returns them.
#[derive(Debug)]
pub struct CreateAccountOutput {
    pub seed: String,
    pub account: String,
}

/// The seed a user's attribute record yields: the first stored phrase
/// where one is stored, the empty string where none is — exactly the
/// shape the rest of the gateway has always consumed.
pub fn seed_from_attributes(attributes: &Option<UserAtributes>) -> (r: UserSeedOutput)
    ensures
        match attributes {
            Some(a) => {
                if a.user_seed@.len() > 0 {
                    r.seed matches Some(s) && s@ == a.user_seed@[0]@
                } else {
                    r.seed matches Some(s) && s@.len() == 0
                }
            },
            None => r.seed matches Some(s) && s@.len() == 0,
        },
{
    match attributes {
        Some(a) => {
            if a.user_seed.len() > 0 {
                UserSeedOutput { seed: Some(a.user_seed[0].clone()) }
            } else {
                UserSeedOutput { seed: Some(String::new()) }
            }
        },
        None => UserSeedOutput { seed: Some(String::new()) },
    }
}

/// What came of asking the identity provider for a user's seed: the
/// stored phrase, a record with no seed attribute, or no answer at
/// all.
pub enum SeedLookup {
    Retrieved(String),
    NoAttribute,
    Unreachable,
}

/// The seed phrase of a lookup, or the lookup's own failure: a user
/// without a seed attribute is not provisioned, and a provider that
/// did not answer is an upstream fault.
pub fn seed_of_lookup(lookup: &SeedLookup) -> (r: Result<String, GatewayError>)
    ensures
        match lookup {
            SeedLookup::Retrieved(s) => r matches Ok(t) && t@ == s@,
            SeedLookup::NoAttribute => r == Err::<String, GatewayError>(
                GatewayError::SeedNotProvisioned,
            ),
            SeedLookup::Unreachable => r == Err::<String, GatewayError>(
                GatewayError::UpstreamUnavailable,
            ),
        },
{
    match lookup {
        SeedLookup::Retrieved(s) => Ok(s.clone()),
        SeedLookup::NoAttribute => Err(GatewayError::SeedNotProvisioned),
        SeedLookup::Unreachable => Err(GatewayError::UpstreamUnavailable),
    }
}

/// Resolve the looked-up seed into a signing capability: every
/// operation handler's first step.
pub fn resolve_lookup(lookup: &SeedLookup) -> (r: Result<SigningCapability, GatewayError>)
    ensures
        match lookup {
            SeedLookup::Retrieved(s) => {
                match sr25519_public_of(s@) {
                    Some(pk) => r matches Ok(c) && c.seed_view() == s@ && c.public_view()
                        == pk,
                    None => r == Err::<SigningCapability, GatewayError>(
                        GatewayError::InvalidSeed,
                    ),
                }
            },
            SeedLookup::NoAttribute => r == Err::<SigningCapability, GatewayError>(
                GatewayError::SeedNotProvisioned,
            ),
            SeedLookup::Unreachable => r == Err::<SigningCapability, GatewayError>(
                GatewayError::UpstreamUnavailable,
            ),
        },
{
    match seed_of_lookup(lookup) {
        Ok(seed) => resolve(seed.as_str()),
        Err(e) => Err(e),
    }
}

/// What the token endpoint's answer reduces to before any parsing of
/// a body: the parsed token field, a refusal, or no answer.
pub enum TokenFetch {
    Body(String),
    BadStatus,
    Unreachable,
}

/// The gateway's reading of the token endpoint's answer: a token, or
/// the error envelope the gateway has always returned for a refusal
/// and for silence.
pub fn token_outcome(fetch: &TokenFetch) -> (r: Result<SugarTokenOutput, ErrorMessageOutput>)
    ensures
        match fetch {
            TokenFetch::Body(t) => r matches Ok(o) && o.access_token@ == t@,
            TokenFetch::BadStatus => r matches Err(e) && e.error@ == "Error request"@
                && e.message@ == "Error when requesting token"@,
            TokenFetch::Unreachable => r matches Err(e) && e.error@ == "Unknown"@
                && e.message@ == "Error Unknown"@,
        },
{
    match fetch {
        TokenFetch::Body(t) => Ok(SugarTokenOutput { access_token: t.clone() }),
        TokenFetch::BadStatus => Err(
            ErrorMessageOutput {
                error: String::from_str("Error request"),
                message: String::from_str("Error when requesting token"),
            },
        ),
        TokenFetch::Unreachable => Err(
            ErrorMessageOutput {
                error: String::from_str("Unknown"),
                message: String::from_str("Error Unknown"),
            },
        ),
    }
}

/// The decision the seed-verification endpoint takes on a lookup.
pub enum SeedVerification {
    AlreadyProvisioned,
    NeedsInsert,
    LookupFailed,
}

/// Decide what the seed-verification endpoint does: a user with a
/// stored seed is left alone, one without gets a seed provisioned, and
/// a failed lookup is reported.
pub fn verify_seed_decision(lookup: &SeedLookup) -> (r: SeedVerification)
    ensures
        match lookup {
            SeedLookup::Retrieved(_) => r is AlreadyProvisioned,
            SeedLookup::NoAttribute => r is NeedsInsert,
            SeedLookup::Unreachable => r is LookupFailed,
        },
{
    match lookup {
        SeedLookup::Retrieved(_) => SeedVerification::AlreadyProvisioned,
        SeedLookup::NoAttribute => SeedVerification::NeedsInsert,
        SeedLookup::Unreachable => SeedVerification::LookupFailed,
    }
}

/// The response the seed-verification endpoint returns where no insert
/// is needed or the lookup failed.
pub fn verify_seed_response(decision: &SeedVerification) -> (r: InsertUserSeedOutput)
    ensures
        match decision {
            SeedVerification::AlreadyProvisioned => r.error is None && r.message@
                == "User with atrribute"@,
            _ => (r.error matches Some(e) && e@ == "Unknown Error"@) && r.message@
                == "Unknown Error"@,
        },
{
    match decision {
        SeedVerification::AlreadyProvisioned => InsertUserSeedOutput {
            error: None,
            message: String::from_str("User with atrribute"),
        },
        _ => InsertUserSeedOutput {
            error: Some(String::from_str("Unknown Error")),
            message: String::from_str("Unknown Error"),
        },
    }
}

/// What an attempt to store a fresh seed in the user's attributes came
/// to, as plain values.
pub enum SeedInsertion {
    Stored,
    Refused,
    Unreachable,
}

/// The response of the seed-provisioning flow for each way the store
/// answered: the words the gateway has always used.
pub fn insert_seed_response(insertion: &SeedInsertion) -> (r: Result<
    InsertUserSeedOutput,
    InsertUserSeedOutput,
>)
    ensures
        match insertion {
            SeedInsertion::Stored => r matches Ok(o) && o.error is None && o.message@
                == "Attribute insert to user attributes"@,
            SeedInsertion::Refused => r matches Err(o) && (o.error matches Some(e) && e@
                == "Error Insert Attribute"@) && o.message@
                == "Error when insert attribute to user"@,
            SeedInsertion::Unreachable => r matches Err(o) && (o.error matches Some(e) && e@
                == "Error Insert Attribute"@) && o.message@ == "Unknown Error"@,
        },
{
    match insertion {
        SeedInsertion::Stored => Ok(
            InsertUserSeedOutput {
                error: None,
                message: String::from_str("Attribute insert to user attributes"),
            },
        ),
        SeedInsertion::Refused => Err(
            InsertUserSeedOutput {
                error: Some(String::from_str("Error Insert Attribute")),
                message: String::from_str("Error when insert attribute to user"),
            },
        ),
        SeedInsertion::Unreachable => Err(
            InsertUserSeedOutput {
                error: Some(String::from_str("Error Insert Attribute")),
                message: String::from_str("Unknown Error"),
            },
        ),
    }
}

} // verus!
