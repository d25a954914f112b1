//! The account operations: creating a fresh account, funding an
//! account, reading a balance, and handing one user's seed to another.
//! Each ledger-bound operation is split at the ledger boundary: a
//! prepare step that resolves the signer, decodes accounts and builds
//! the call descriptor — rejecting bad input before any ledger call —
//! and a finish step that turns the submission's outcome into the
//! response body.

use vstd::prelude::*;

use crate::call::CallDescriptor;
use crate::error::GatewayError;
use crate::event::find_first;
use crate::event::first_match;
use crate::event::EventRecord;
use crate::event::EventTag;
use crate::keys::generate_seed;
use crate::keys::hex_of;
use crate::keys::sr25519_public_of;
use crate::keys::SigningCapability;
use crate::outcome::SubmissionOutcome;
use crate::ss58::decode;
use crate::ss58::encode;
use crate::ss58::ss58_of;
use crate::ss58::ss58_parse;
use crate::user::resolve_lookup;
use crate::user::SeedLookup;

verus! {

/// A fresh account: its secret seed phrase and its address.
#[derive(Debug)]
pub struct CreateAccountOutput {
    pub seed: String,
    pub account: String,
}

/// A funding request: destination address and amount.
#[derive(Debug)]
pub struct FundAccountInput {
    pub to: String,
    pub amount: u128,
}

/// The funding response: the transfer the ledger actually recorded.
#[derive(Debug)]
pub struct FundAccountOutput {
    pub from: String,
    pub to: String,
    pub amount: u128,
}

/// A balance query by address.
#[derive(Debug)]
pub struct AccountBalanceInput {
    pub account: String,
}

/// The free balance the ledger reported.
#[derive(Debug)]
pub struct AccountBalanceOutput {
    pub balance: u128,
}

/// A seed hand-over request: the receiving user.
#[derive(Debug)]
pub struct TransferAccountInput {
    pub to: String,
}

/// The seed hand-over response.
#[derive(Debug)]
pub struct TransferAccountOutput {
    pub error: Option<String>,
    pub message: String,
}

/// Generate a unique seed and the account it derives to. Whatever the
/// generator hands out, the seed is two slashes followed by the 64
/// hexadecimal digits of the drawn bytes, the returned address is the
/// canonical string of exactly the identity that seed resolves to, and
/// failure is possible only where a drawn phrase genuinely fails to
/// derive a key pair.
pub fn create() -> (r: Result<CreateAccountOutput, GatewayError>)
    ensures
        r matches Ok(o) ==> (o.seed@.len() == 66
            && (exists|b: Seq<u8>| b.len() == 32 && o.seed@ == seq!['/', '/'] + hex_of(b))
            && (sr25519_public_of(o.seed@) matches Some(pk) && o.account@ == ss58_of(pk)
                && ss58_parse(o.account@) == Some(pk))),
        r matches Err(e) ==> (e is InvalidSeed && (exists|b: Seq<u8>|
            b.len() == 32 && sr25519_public_of(seq!['/', '/'] + hex_of(b)) is None)),
{
    match generate_seed() {
        Ok(g) => {
            let account = encode(&g.account);
            Ok(CreateAccountOutput { seed: g.seed, account })
        },
        Err(e) => Err(e),
    }
}

/// Prepare a funding call: resolve the signer from the looked-up
/// seed, decode the destination address, and build the transfer
/// descriptor. Every malformed input is rejected here, before any
/// ledger call.
pub fn prepare_fund(lookup: &SeedLookup, req: &FundAccountInput) -> (r: Result<
    (SigningCapability, CallDescriptor),
    GatewayError,
>)
    ensures
        match lookup {
            SeedLookup::NoAttribute => r matches Err(e) && e is SeedNotProvisioned,
            SeedLookup::Unreachable => r matches Err(e) && e is UpstreamUnavailable,
            SeedLookup::Retrieved(s) => {
                match sr25519_public_of(s@) {
                    None => r matches Err(e) && e is InvalidSeed,
                    Some(pk) => match ss58_parse(req.to@) {
                        None => r matches Err(e) && e is InvalidAccount,
                        Some(idb) => r matches Ok(p) && p.0.seed_view() == s@
                            && p.0.public_view() == pk && (p.1 matches
                        CallDescriptor::Transfer { to, amount } && to@ == idb && amount
                            == req.amount),
                    },
                }
            },
        },
{
    let cap = match resolve_lookup(lookup) {
        Ok(c) => c,
        Err(e) => {
            return Err(e);
        },
    };
    let to = match decode(req.to.as_str()) {
        Ok(a) => a,
        Err(e) => {
            return Err(e);
        },
    };
    Ok((cap, CallDescriptor::Transfer { to, amount: req.amount }))
}

/// Turn a funding submission's outcome into the response: the first
/// transfer event of the finalized log, with the fields the ledger
/// recorded; its absence is a reportable failure, not a success.
pub fn finish_fund(outcome: &SubmissionOutcome) -> (r: Result<FundAccountOutput, GatewayError>)
    ensures
        match outcome {
            SubmissionOutcome::Pending => r matches Err(e) && e is UpstreamUnavailable,
            SubmissionOutcome::Rejected(reason) => r matches Err(e) && (e matches
            GatewayError::SubmissionRejected(t) && t@ == reason@),
            SubmissionOutcome::Finalized(log) => {
                match first_match(log@, EventTag::BalancesTransfer) {
                    None => r matches Err(e) && (e matches GatewayError::EventNotFound(t) && t
                        is BalancesTransfer),
                    Some(i) => {
                        if log@[i] is Garbled {
                            r matches Err(e) && e is EventDecodeError
                        } else {
                            log@[i] matches EventRecord::Transfer { from, to, amount } && (r
                            matches Ok(o) && o.from@ == ss58_of(from@) && o.to@ == ss58_of(
                                to@,
                            ) && o.amount == amount)
                        }
                    },
                }
            },
        },
{
    match outcome {
        SubmissionOutcome::Pending => Err(GatewayError::UpstreamUnavailable),
        SubmissionOutcome::Rejected(reason) => Err(
            GatewayError::SubmissionRejected(reason.clone()),
        ),
        SubmissionOutcome::Finalized(log) => {
            match find_first(log, EventTag::BalancesTransfer) {
                Err(e) => Err(e),
                Ok(None) => Err(GatewayError::EventNotFound(EventTag::BalancesTransfer)),
                Ok(Some(i)) => {
                    proof {
                        crate::event::lemma_first_match(log@, EventTag::BalancesTransfer);
                    }
                    if let EventRecord::Transfer { from, to, amount } = &log[i] {
                        Ok(
                            FundAccountOutput {
                                from: encode(from),
                                to: encode(to),
                                amount: *amount,
                            },
                        )
                    } else {
                        proof {
                            assert(false);
                        }
                        Err(GatewayError::EventDecodeError)
                    }
                },
            }
        },
    }
}

/// Decode the queried address; a malformed one is rejected before any
/// storage read.
pub fn prepare_balance(req: &AccountBalanceInput) -> (r: Result<
    crate::ss58::AccountIdentity,
    GatewayError,
>)
    ensures
        match ss58_parse(req.account@) {
            None => r matches Err(e) && e is InvalidAccount,
            Some(idb) => r matches Ok(a) && a@ == idb,
        },
{
    decode(req.account.as_str())
}

/// Wrap the free balance the ledger reported.
pub fn finish_balance(free: u128) -> (r: AccountBalanceOutput)
    ensures
        r.balance == free,
{
    AccountBalanceOutput { balance: free }
}

/// One step of the seed hand-over checked: the provider answered with
/// no-content, or the whole operation fails as unreachable upstream.
pub fn transfer_step(no_content: bool) -> (r: Result<(), GatewayError>)
    ensures
        no_content ==> r is Ok,
        !no_content ==> (r matches Err(e) && e is UpstreamUnavailable),
{
    if no_content {
        Ok(())
    } else {
        Err(GatewayError::UpstreamUnavailable)
    }
}

/// The response of a completed seed hand-over: the words the gateway
/// has always used.
pub fn transfer_success() -> (r: TransferAccountOutput)
    ensures
        r.error is None,
        r.message@ == "Attribute insert to user attributes"@,
{
    TransferAccountOutput {
        error: None,
        message: String::from_str("Attribute insert to user attributes"),
    }
}

} // verus!
