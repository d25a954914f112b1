//! The escrow operations: creating an escrow for an owner, depositing
//! assets into one, and refunding them. Each operation is split at the
//! ledger boundary: prepare resolves the signer, decodes the account
//! and checks parallel vectors — rejecting bad input before any ledger
//! call — and finish turns the submission's outcome into the response
//! body.

use vstd::prelude::*;

use crate::call::valid_params;
use crate::call::CallDescriptor;
use crate::error::GatewayError;
use crate::event::find_first;
use crate::event::first_match;
use crate::event::EventRecord;
use crate::event::EventTag;
use crate::keys::sr25519_public_of;
use crate::keys::SigningCapability;
use crate::outcome::SubmissionOutcome;
use crate::ss58::decode;
use crate::ss58::encode;
use crate::ss58::ss58_of;
use crate::ss58::ss58_parse;
use crate::user::resolve_lookup;
use crate::user::SeedLookup;
use crate::util::copy_u128s;
use crate::util::copy_u64s;

verus! {

/// A request to create an escrow held for an owner.
#[derive(Debug)]
pub struct CreateEscrowInput {
    pub owner: String,
}

/// The created escrow, as the ledger recorded it.
#[derive(Debug)]
pub struct CreateEscrowOutput {
    pub escrow: String,
    pub operator: String,
    pub owner: String,
}

/// A request to refund an escrow's assets to its owner.
#[derive(Debug)]
pub struct RefundAssetsInput {
    pub escrow: String,
}

/// The completed refund, as the ledger recorded it.
#[derive(Debug)]
pub struct RefundAssetsOutput {
    pub escrow: String,
    pub operator: String,
    pub owner: String,
}

/// A request to deposit assets into an escrow.
#[derive(Debug)]
pub struct DepositAssetsInput {
    pub escrow: String,
    pub class_id: u64,
    pub asset_ids: Vec<u64>,
    pub amounts: Vec<u128>,
}

/// The completed deposit, as the ledger recorded it.
#[derive(Debug)]
pub struct DepositAssetsOutput {
    pub escrow: String,
    pub operator: String,
    pub owner: String,
}

/// Prepare an escrow creation: resolve the signer and decode the
/// owner's address; a malformed one is rejected before any ledger
/// call.
pub fn prepare_create_escrow(lookup: &SeedLookup, req: &CreateEscrowInput) -> (r: Result<
    (SigningCapability, CallDescriptor),
    GatewayError,
>)
    ensures
        match lookup {
            SeedLookup::NoAttribute => r matches Err(e) && e is SeedNotProvisioned,
            SeedLookup::Unreachable => r matches Err(e) && e is UpstreamUnavailable,
            SeedLookup::Retrieved(s) => {
                match sr25519_public_of(s@) {
                    None => r matches Err(e) && e is InvalidSeed,
                    Some(pk) => match ss58_parse(req.owner@) {
                        None => r matches Err(e) && e is InvalidAccount,
                        Some(idb) => r matches Ok(p) && p.0.seed_view() == s@
                            && p.0.public_view() == pk && (p.1 matches
                        CallDescriptor::CreateEscrow { owner } && owner@ == idb),
                    },
                }
            },
        },
{
    let cap = match resolve_lookup(lookup) {
        Ok(c) => c,
        Err(e) => {
            return Err(e);
        },
    };
    let owner = match decode(req.owner.as_str()) {
        Ok(a) => a,
        Err(e) => {
            return Err(e);
        },
    };
    Ok((cap, CallDescriptor::CreateEscrow { owner }))
}

/// Turn an escrow-creation outcome into the response: the first
/// escrow-created event of the finalized log; its absence is a
/// reportable failure, never a success.
pub fn finish_create_escrow(outcome: &SubmissionOutcome) -> (r: Result<
    CreateEscrowOutput,
    GatewayError,
>)
    ensures
        match outcome {
            SubmissionOutcome::Pending => r matches Err(e) && e is UpstreamUnavailable,
            SubmissionOutcome::Rejected(reason) => r matches Err(e) && (e matches
            GatewayError::SubmissionRejected(t) && t@ == reason@),
            SubmissionOutcome::Finalized(log) => {
                match first_match(log@, EventTag::EscrowCreated) {
                    None => r matches Err(e) && (e matches GatewayError::EventNotFound(t) && t
                        is EscrowCreated),
                    Some(i) => {
                        if log@[i] is Garbled {
                            r matches Err(e) && e is EventDecodeError
                        } else {
                            log@[i] matches EventRecord::Created { escrow, operator, owner }
                                && (r matches Ok(o) && o.escrow@ == ss58_of(escrow@)
                                && o.operator@ == ss58_of(operator@) && o.owner@ == ss58_of(
                                owner@,
                            ))
                        }
                    },
                }
            },
        },
{
    match outcome {
        SubmissionOutcome::Pending => Err(GatewayError::UpstreamUnavailable),
        SubmissionOutcome::Rejected(reason) => Err(
            GatewayError::SubmissionRejected(reason.clone()),
        ),
        SubmissionOutcome::Finalized(log) => {
            match find_first(log, EventTag::EscrowCreated) {
                Err(e) => Err(e),
                Ok(None) => Err(GatewayError::EventNotFound(EventTag::EscrowCreated)),
                Ok(Some(i)) => {
                    proof {
                        crate::event::lemma_first_match(log@, EventTag::EscrowCreated);
                    }
                    if let EventRecord::Created { escrow, operator, owner } = &log[i] {
                        Ok(
                            CreateEscrowOutput {
                                escrow: encode(escrow),
                                operator: encode(operator),
                                owner: encode(owner),
                            },
                        )
                    } else {
                        proof {
                            assert(false);
                        }
                        Err(GatewayError::EventDecodeError)
                    }
                },
            }
        },
    }
}

/// Prepare a refund: resolve the signer and decode the escrow's
/// address.
pub fn prepare_refund_assets(lookup: &SeedLookup, req: &RefundAssetsInput) -> (r: Result<
    (SigningCapability, CallDescriptor),
    GatewayError,
>)
    ensures
        match lookup {
            SeedLookup::NoAttribute => r matches Err(e) && e is SeedNotProvisioned,
            SeedLookup::Unreachable => r matches Err(e) && e is UpstreamUnavailable,
            SeedLookup::Retrieved(s) => {
                match sr25519_public_of(s@) {
                    None => r matches Err(e) && e is InvalidSeed,
                    Some(pk) => match ss58_parse(req.escrow@) {
                        None => r matches Err(e) && e is InvalidAccount,
                        Some(idb) => r matches Ok(p) && p.0.seed_view() == s@
                            && p.0.public_view() == pk && (p.1 matches
                        CallDescriptor::RefundAssets { escrow } && escrow@ == idb),
                    },
                }
            },
        },
{
    let cap = match resolve_lookup(lookup) {
        Ok(c) => c,
        Err(e) => {
            return Err(e);
        },
    };
    let escrow = match decode(req.escrow.as_str()) {
        Ok(a) => a,
        Err(e) => {
            return Err(e);
        },
    };
    Ok((cap, CallDescriptor::RefundAssets { escrow }))
}

/// Turn a refund outcome into the response: the first refund event of
/// the finalized log.
pub fn finish_refund_assets(outcome: &SubmissionOutcome) -> (r: Result<
    RefundAssetsOutput,
    GatewayError,
>)
    ensures
        match outcome {
            SubmissionOutcome::Pending => r matches Err(e) && e is UpstreamUnavailable,
            SubmissionOutcome::Rejected(reason) => r matches Err(e) && (e matches
            GatewayError::SubmissionRejected(t) && t@ == reason@),
            SubmissionOutcome::Finalized(log) => {
                match first_match(log@, EventTag::EscrowRefund) {
                    None => r matches Err(e) && (e matches GatewayError::EventNotFound(t) && t
                        is EscrowRefund),
                    Some(i) => {
                        if log@[i] is Garbled {
                            r matches Err(e) && e is EventDecodeError
                        } else {
                            log@[i] matches EventRecord::Refund { escrow, operator, owner }
                                && (r matches Ok(o) && o.escrow@ == ss58_of(escrow@)
                                && o.operator@ == ss58_of(operator@) && o.owner@ == ss58_of(
                                owner@,
                            ))
                        }
                    },
                }
            },
        },
{
    match outcome {
        SubmissionOutcome::Pending => Err(GatewayError::UpstreamUnavailable),
        SubmissionOutcome::Rejected(reason) => Err(
            GatewayError::SubmissionRejected(reason.clone()),
        ),
        SubmissionOutcome::Finalized(log) => {
            match find_first(log, EventTag::EscrowRefund) {
                Err(e) => Err(e),
                Ok(None) => Err(GatewayError::EventNotFound(EventTag::EscrowRefund)),
                Ok(Some(i)) => {
                    proof {
                        crate::event::lemma_first_match(log@, EventTag::EscrowRefund);
                    }
                    if let EventRecord::Refund { escrow, operator, owner } = &log[i] {
                        Ok(
                            RefundAssetsOutput {
                                escrow: encode(escrow),
                                operator: encode(operator),
                                owner: encode(owner),
                            },
                        )
                    } else {
                        proof {
                            assert(false);
                        }
                        Err(GatewayError::EventDecodeError)
                    }
                },
            }
        },
    }
}

/// Prepare a deposit: resolve the signer, decode the escrow's
/// address, build the descriptor, and check that each asset id pairs
/// with one amount — a mismatch is rejected before any ledger call.
pub fn prepare_deposit_assets(lookup: &SeedLookup, req: &DepositAssetsInput) -> (r: Result<
    (SigningCapability, CallDescriptor),
    GatewayError,
>)
    ensures
        match lookup {
            SeedLookup::NoAttribute => r matches Err(e) && e is SeedNotProvisioned,
            SeedLookup::Unreachable => r matches Err(e) && e is UpstreamUnavailable,
            SeedLookup::Retrieved(s) => {
                match sr25519_public_of(s@) {
                    None => r matches Err(e) && e is InvalidSeed,
                    Some(pk) => match ss58_parse(req.escrow@) {
                        None => r matches Err(e) && e is InvalidAccount,
                        Some(idb) => {
                            if req.asset_ids@.len() != req.amounts@.len() {
                                r matches Err(e) && e is ParameterMismatch
                            } else {
                                r matches Ok(p) && p.0.seed_view() == s@ && p.0.public_view()
                                    == pk && valid_params(p.1) && (p.1 matches
                                CallDescriptor::DepositAssets {
                                    escrow,
                                    class_id,
                                    asset_ids,
                                    amounts,
                                } && escrow@ == idb && class_id == req.class_id && asset_ids@
                                    == req.asset_ids@ && amounts@ == req.amounts@)
                            }
                        },
                    },
                }
            },
        },
{
    let cap = match resolve_lookup(lookup) {
        Ok(c) => c,
        Err(e) => {
            return Err(e);
        },
    };
    let escrow = match decode(req.escrow.as_str()) {
        Ok(a) => a,
        Err(e) => {
            return Err(e);
        },
    };
    let call = CallDescriptor::DepositAssets {
        escrow,
        class_id: req.class_id,
        asset_ids: copy_u64s(&req.asset_ids),
        amounts: copy_u128s(&req.amounts),
    };
    match call.validate() {
        Ok(()) => Ok((cap, call)),
        Err(e) => Err(e),
    }
}

/// Turn a deposit outcome into the response: the first deposit event
/// of the finalized log.
pub fn finish_deposit_assets(outcome: &SubmissionOutcome) -> (r: Result<
    DepositAssetsOutput,
    GatewayError,
>)
    ensures
        match outcome {
            SubmissionOutcome::Pending => r matches Err(e) && e is UpstreamUnavailable,
            SubmissionOutcome::Rejected(reason) => r matches Err(e) && (e matches
            GatewayError::SubmissionRejected(t) && t@ == reason@),
            SubmissionOutcome::Finalized(log) => {
                match first_match(log@, EventTag::EscrowDeposit) {
                    None => r matches Err(e) && (e matches GatewayError::EventNotFound(t) && t
                        is EscrowDeposit),
                    Some(i) => {
                        if log@[i] is Garbled {
                            r matches Err(e) && e is EventDecodeError
                        } else {
                            log@[i] matches EventRecord::Deposit { escrow, operator, owner }
                                && (r matches Ok(o) && o.escrow@ == ss58_of(escrow@)
                                && o.operator@ == ss58_of(operator@) && o.owner@ == ss58_of(
                                owner@,
                            ))
                        }
                    },
                }
            },
        },
{
    match outcome {
        SubmissionOutcome::Pending => Err(GatewayError::UpstreamUnavailable),
        SubmissionOutcome::Rejected(reason) => Err(
            GatewayError::SubmissionRejected(reason.clone()),
        ),
        SubmissionOutcome::Finalized(log) => {
            match find_first(log, EventTag::EscrowDeposit) {
                Err(e) => Err(e),
                Ok(None) => Err(GatewayError::EventNotFound(EventTag::EscrowDeposit)),
                Ok(Some(i)) => {
                    proof {
                        crate::event::lemma_first_match(log@, EventTag::EscrowDeposit);
                    }
                    if let EventRecord::Deposit { escrow, operator, owner } = &log[i] {
                        Ok(
                            DepositAssetsOutput {
                                escrow: encode(escrow),
                                operator: encode(operator),
                                owner: encode(owner),
                            },
                        )
                    } else {
                        proof {
                            assert(false);
                        }
                        Err(GatewayError::EventDecodeError)
                    }
                },
            }
        },
    }
}

} // verus!
