//! The exchange operations: creating an exchange for a currency and
//! an asset class, buying and selling assets, and adding and removing
//! liquidity. Each operation is split at the ledger boundary: prepare
//! resolves the signer, decodes the destination account, builds the
//! call descriptor and checks its parallel vectors — rejecting bad
//! input before any ledger call — and finish turns the submission's
//! outcome into the response body.

use vstd::prelude::*;

use crate::call::valid_params;
use crate::call::CallDescriptor;
use crate::error::GatewayError;
use crate::event::find_first;
use crate::event::first_match;
use crate::event::EventRecord;
use crate::event::EventTag;
use crate::keys::sr25519_public_of;
use crate::keys::SigningCapability;
use crate::outcome::SubmissionOutcome;
use crate::ss58::decode;
use crate::ss58::encode;
use crate::ss58::ss58_of;
use crate::ss58::ss58_parse;
use crate::user::resolve_lookup;
use crate::user::SeedLookup;
use crate::util::copy_u128s;
use crate::util::copy_u64s;

verus! {

/// A currency: an asset named by class and asset id.
#[derive(Debug)]
pub struct Currency {
    pub class_id: u64,
    pub asset_id: u64,
}

/// A request to create an exchange for a currency and an asset class.
#[derive(Debug)]
pub struct CreateDexInput {
    pub exchange_id: u32,
    pub currency: Currency,
    pub asset_class_id: u64,
    pub lp_class_id: u64,
}

/// The created exchange, as the ledger recorded it.
#[derive(Debug)]
pub struct CreateDexOutput {
    pub exchange_id: u32,
    pub who: String,
}

/// A request to buy assets with currency.
#[derive(Debug)]
pub struct BuyAssetsInput {
    pub exchange_id: u32,
    pub asset_ids: Vec<u64>,
    pub asset_amounts_out: Vec<u128>,
    pub max_currency: u128,
    pub to: String,
}

/// The completed purchase, as the ledger recorded it.
#[derive(Debug)]
pub struct BuyAssetsOutput {
    pub exchange_id: u32,
    pub who: String,
    pub to: String,
    pub asset_ids: Vec<u64>,
    pub asset_amounts_out: Vec<u128>,
    pub currency_amounts_in: Vec<u128>,
}

/// A request to sell assets for currency.
#[derive(Debug)]
pub struct SellAssetsInput {
    pub exchange_id: u32,
    pub asset_ids: Vec<u64>,
    pub asset_amounts_in: Vec<u128>,
    pub min_currency: u128,
    pub to: String,
}

/// The completed sale, as the ledger recorded it.
#[derive(Debug)]
pub struct SellAssetsOutput {
    pub exchange_id: u32,
    pub who: String,
    pub to: String,
    pub asset_ids: Vec<u64>,
    pub asset_amounts_in: Vec<u128>,
    pub currency_amounts_out: Vec<u128>,
}

/// A request to add liquidity to an exchange.
#[derive(Debug)]
pub struct AddLiquidityInput {
    pub to: String,
    pub exchange_id: u32,
    pub asset_ids: Vec<u64>,
    pub asset_amounts: Vec<u128>,
    pub max_currencies: Vec<u128>,
}

/// The added liquidity, as the ledger recorded it.
#[derive(Debug)]
pub struct AddLiquidityOutput {
    pub exchange_id: u32,
    pub who: String,
    pub to: String,
    pub asset_ids: Vec<u64>,
    pub asset_amounts: Vec<u128>,
    pub currency_amounts: Vec<u128>,
}

/// A request to remove liquidity from an exchange.
#[derive(Debug)]
pub struct RemoveLiquidityInput {
    pub to: String,
    pub exchange_id: u32,
    pub asset_ids: Vec<u64>,
    pub liquidities: Vec<u128>,
    pub min_currencies: Vec<u128>,
    pub min_assets: Vec<u128>,
}

/// The removed liquidity, as the ledger recorded it.
#[derive(Debug)]
pub struct RemoveLiquidityOutput {
    pub exchange_id: u32,
    pub who: String,
    pub to: String,
    pub asset_ids: Vec<u64>,
    pub asset_amounts: Vec<u128>,
    pub currency_amounts: Vec<u128>,
}

/// Prepare an exchange-creation call: resolve the signer and build the
/// descriptor. No account to decode and no vectors to check.
pub fn prepare_create(lookup: &SeedLookup, req: &CreateDexInput) -> (r: Result<
    (SigningCapability, CallDescriptor),
    GatewayError,
>)
    ensures
        match lookup {
            SeedLookup::NoAttribute => r matches Err(e) && e is SeedNotProvisioned,
            SeedLookup::Unreachable => r matches Err(e) && e is UpstreamUnavailable,
            SeedLookup::Retrieved(s) => {
                match sr25519_public_of(s@) {
                    None => r matches Err(e) && e is InvalidSeed,
                    Some(pk) => r matches Ok(p) && p.0.seed_view() == s@ && p.0.public_view()
                        == pk && (p.1 matches CallDescriptor::CreateExchange {
                        exchange_id,
                        currency_class_id,
                        currency_asset_id,
                        asset_class_id,
                        lp_class_id,
                    } && exchange_id == req.exchange_id && currency_class_id
                        == req.currency.class_id && currency_asset_id == req.currency.asset_id
                        && asset_class_id == req.asset_class_id && lp_class_id
                        == req.lp_class_id),
                }
            },
        },
{
    let cap = match resolve_lookup(lookup) {
        Ok(c) => c,
        Err(e) => {
            return Err(e);
        },
    };
    Ok(
        (
            cap,
            CallDescriptor::CreateExchange {
                exchange_id: req.exchange_id,
                currency_class_id: req.currency.class_id,
                currency_asset_id: req.currency.asset_id,
                asset_class_id: req.asset_class_id,
                lp_class_id: req.lp_class_id,
            },
        ),
    )
}

/// Turn an exchange-creation outcome into the response: the first
/// exchange-created event of the finalized log.
pub fn finish_create(outcome: &SubmissionOutcome) -> (r: Result<CreateDexOutput, GatewayError>)
    ensures
        match outcome {
            SubmissionOutcome::Pending => r matches Err(e) && e is UpstreamUnavailable,
            SubmissionOutcome::Rejected(reason) => r matches Err(e) && (e matches
            GatewayError::SubmissionRejected(t) && t@ == reason@),
            SubmissionOutcome::Finalized(log) => {
                match first_match(log@, EventTag::DexExchangeCreated) {
                    None => r matches Err(e) && (e matches GatewayError::EventNotFound(t) && t
                        is DexExchangeCreated),
                    Some(i) => {
                        if log@[i] is Garbled {
                            r matches Err(e) && e is EventDecodeError
                        } else {
                            log@[i] matches EventRecord::ExchangeCreated { exchange_id, who }
                                && (r matches Ok(o) && o.exchange_id == exchange_id && o.who@
                                == ss58_of(who@))
                        }
                    },
                }
            },
        },
{
    match outcome {
        SubmissionOutcome::Pending => Err(GatewayError::UpstreamUnavailable),
        SubmissionOutcome::Rejected(reason) => Err(
            GatewayError::SubmissionRejected(reason.clone()),
        ),
        SubmissionOutcome::Finalized(log) => {
            match find_first(log, EventTag::DexExchangeCreated) {
                Err(e) => Err(e),
                Ok(None) => Err(GatewayError::EventNotFound(EventTag::DexExchangeCreated)),
                Ok(Some(i)) => {
                    proof {
                        crate::event::lemma_first_match(log@, EventTag::DexExchangeCreated);
                    }
                    if let EventRecord::ExchangeCreated { exchange_id, who } = &log[i] {
                        Ok(CreateDexOutput { exchange_id: *exchange_id, who: encode(who) })
                    } else {
                        proof {
                            assert(false);
                        }
                        Err(GatewayError::EventDecodeError)
                    }
                },
            }
        },
    }
}

/// Prepare a purchase: resolve the signer, decode the destination,
/// build the descriptor, and check that each asset id pairs with one
/// amount — a mismatch is rejected before any ledger call.
pub fn prepare_buy_assets(lookup: &SeedLookup, req: &BuyAssetsInput) -> (r: Result<
    (SigningCapability, CallDescriptor),
    GatewayError,
>)
    ensures
        match lookup {
            SeedLookup::NoAttribute => r matches Err(e) && e is SeedNotProvisioned,
            SeedLookup::Unreachable => r matches Err(e) && e is UpstreamUnavailable,
            SeedLookup::Retrieved(s) => {
                match sr25519_public_of(s@) {
                    None => r matches Err(e) && e is InvalidSeed,
                    Some(pk) => match ss58_parse(req.to@) {
                        None => r matches Err(e) && e is InvalidAccount,
                        Some(idb) => {
                            if req.asset_ids@.len() != req.asset_amounts_out@.len() {
                                r matches Err(e) && e is ParameterMismatch
                            } else {
                                r matches Ok(p) && p.0.seed_view() == s@ && p.0.public_view()
                                    == pk && valid_params(p.1) && (p.1 matches
                                CallDescriptor::BuyAssets {
                                    exchange_id,
                                    asset_ids,
                                    asset_amounts_out,
                                    max_currency,
                                    to,
                                } && exchange_id == req.exchange_id && asset_ids@
                                    == req.asset_ids@ && asset_amounts_out@
                                    == req.asset_amounts_out@ && max_currency
                                    == req.max_currency && to@ == idb)
                            }
                        },
                    },
                }
            },
        },
{
    let cap = match resolve_lookup(lookup) {
        Ok(c) => c,
        Err(e) => {
            return Err(e);
        },
    };
    let to = match decode(req.to.as_str()) {
        Ok(a) => a,
        Err(e) => {
            return Err(e);
        },
    };
    let call = CallDescriptor::BuyAssets {
        exchange_id: req.exchange_id,
        asset_ids: copy_u64s(&req.asset_ids),
        asset_amounts_out: copy_u128s(&req.asset_amounts_out),
        max_currency: req.max_currency,
        to,
    };
    match call.validate() {
        Ok(()) => Ok((cap, call)),
        Err(e) => Err(e),
    }
}

/// Turn a purchase outcome into the response: the first
/// currency-to-asset event of the finalized log, fields unchanged.
pub fn finish_buy_assets(outcome: &SubmissionOutcome) -> (r: Result<BuyAssetsOutput, GatewayError>)
    ensures
        match outcome {
            SubmissionOutcome::Pending => r matches Err(e) && e is UpstreamUnavailable,
            SubmissionOutcome::Rejected(reason) => r matches Err(e) && (e matches
            GatewayError::SubmissionRejected(t) && t@ == reason@),
            SubmissionOutcome::Finalized(log) => {
                match first_match(log@, EventTag::DexCurrencyToAsset) {
                    None => r matches Err(e) && (e matches GatewayError::EventNotFound(t) && t
                        is DexCurrencyToAsset),
                    Some(i) => {
                        if log@[i] is Garbled {
                            r matches Err(e) && e is EventDecodeError
                        } else {
                            log@[i] matches EventRecord::CurrencyToAsset {
                                exchange_id,
                                who,
                                to,
                                asset_ids,
                                asset_amounts_out,
                                currency_amounts_in,
                            } && (r matches Ok(o) && o.exchange_id == exchange_id && o.who@
                                == ss58_of(who@) && o.to@ == ss58_of(to@) && o.asset_ids@
                                == asset_ids@ && o.asset_amounts_out@ == asset_amounts_out@
                                && o.currency_amounts_in@ == currency_amounts_in@)
                        }
                    },
                }
            },
        },
{
    match outcome {
        SubmissionOutcome::Pending => Err(GatewayError::UpstreamUnavailable),
        SubmissionOutcome::Rejected(reason) => Err(
            GatewayError::SubmissionRejected(reason.clone()),
        ),
        SubmissionOutcome::Finalized(log) => {
            match find_first(log, EventTag::DexCurrencyToAsset) {
                Err(e) => Err(e),
                Ok(None) => Err(GatewayError::EventNotFound(EventTag::DexCurrencyToAsset)),
                Ok(Some(i)) => {
                    proof {
                        crate::event::lemma_first_match(log@, EventTag::DexCurrencyToAsset);
                    }
                    if let EventRecord::CurrencyToAsset {
                        exchange_id,
                        who,
                        to,
                        asset_ids,
                        asset_amounts_out,
                        currency_amounts_in,
                    } = &log[i] {
                        Ok(
                            BuyAssetsOutput {
                                exchange_id: *exchange_id,
                                who: encode(who),
                                to: encode(to),
                                asset_ids: copy_u64s(asset_ids),
                                asset_amounts_out: copy_u128s(asset_amounts_out),
                                currency_amounts_in: copy_u128s(currency_amounts_in),
                            },
                        )
                    } else {
                        proof {
                            assert(false);
                        }
                        Err(GatewayError::EventDecodeError)
                    }
                },
            }
        },
    }
}

/// Prepare a sale: resolve the signer, decode the destination, build
/// the descriptor, and check that each asset id pairs with one amount.
pub fn prepare_sell_assets(lookup: &SeedLookup, req: &SellAssetsInput) -> (r: Result<
    (SigningCapability, CallDescriptor),
    GatewayError,
>)
    ensures
        match lookup {
            SeedLookup::NoAttribute => r matches Err(e) && e is SeedNotProvisioned,
            SeedLookup::Unreachable => r matches Err(e) && e is UpstreamUnavailable,
            SeedLookup::Retrieved(s) => {
                match sr25519_public_of(s@) {
                    None => r matches Err(e) && e is InvalidSeed,
                    Some(pk) => match ss58_parse(req.to@) {
                        None => r matches Err(e) && e is InvalidAccount,
                        Some(idb) => {
                            if req.asset_ids@.len() != req.asset_amounts_in@.len() {
                                r matches Err(e) && e is ParameterMismatch
                            } else {
                                r matches Ok(p) && p.0.seed_view() == s@ && p.0.public_view()
                                    == pk && valid_params(p.1) && (p.1 matches
                                CallDescriptor::SellAssets {
                                    exchange_id,
                                    asset_ids,
                                    asset_amounts_in,
                                    min_currency,
                                    to,
                                } && exchange_id == req.exchange_id && asset_ids@
                                    == req.asset_ids@ && asset_amounts_in@
                                    == req.asset_amounts_in@ && min_currency
                                    == req.min_currency && to@ == idb)
                            }
                        },
                    },
                }
            },
        },
{
    let cap = match resolve_lookup(lookup) {
        Ok(c) => c,
        Err(e) => {
            return Err(e);
        },
    };
    let to = match decode(req.to.as_str()) {
        Ok(a) => a,
        Err(e) => {
            return Err(e);
        },
    };
    let call = CallDescriptor::SellAssets {
        exchange_id: req.exchange_id,
        asset_ids: copy_u64s(&req.asset_ids),
        asset_amounts_in: copy_u128s(&req.asset_amounts_in),
        min_currency: req.min_currency,
        to,
    };
    match call.validate() {
        Ok(()) => Ok((cap, call)),
        Err(e) => Err(e),
    }
}

/// Turn a sale outcome into the response: the first asset-to-currency
/// event of the finalized log, fields unchanged.
pub fn finish_sell_assets(outcome: &SubmissionOutcome) -> (r: Result<
    SellAssetsOutput,
    GatewayError,
>)
    ensures
        match outcome {
            SubmissionOutcome::Pending => r matches Err(e) && e is UpstreamUnavailable,
            SubmissionOutcome::Rejected(reason) => r matches Err(e) && (e matches
            GatewayError::SubmissionRejected(t) && t@ == reason@),
            SubmissionOutcome::Finalized(log) => {
                match first_match(log@, EventTag::DexAssetToCurrency) {
                    None => r matches Err(e) && (e matches GatewayError::EventNotFound(t) && t
                        is DexAssetToCurrency),
                    Some(i) => {
                        if log@[i] is Garbled {
                            r matches Err(e) && e is EventDecodeError
                        } else {
                            log@[i] matches EventRecord::AssetToCurrency {
                                exchange_id,
                                who,
                                to,
                                asset_ids,
                                asset_amounts_in,
                                currency_amounts_out,
                            } && (r matches Ok(o) && o.exchange_id == exchange_id && o.who@
                                == ss58_of(who@) && o.to@ == ss58_of(to@) && o.asset_ids@
                                == asset_ids@ && o.asset_amounts_in@ == asset_amounts_in@
                                && o.currency_amounts_out@ == currency_amounts_out@)
                        }
                    },
                }
            },
        },
{
    match outcome {
        SubmissionOutcome::Pending => Err(GatewayError::UpstreamUnavailable),
        SubmissionOutcome::Rejected(reason) => Err(
            GatewayError::SubmissionRejected(reason.clone()),
        ),
        SubmissionOutcome::Finalized(log) => {
            match find_first(log, EventTag::DexAssetToCurrency) {
                Err(e) => Err(e),
                Ok(None) => Err(GatewayError::EventNotFound(EventTag::DexAssetToCurrency)),
                Ok(Some(i)) => {
                    proof {
                        crate::event::lemma_first_match(log@, EventTag::DexAssetToCurrency);
                    }
                    if let EventRecord::AssetToCurrency {
                        exchange_id,
                        who,
                        to,
                        asset_ids,
                        asset_amounts_in,
                        currency_amounts_out,
                    } = &log[i] {
                        Ok(
                            SellAssetsOutput {
                                exchange_id: *exchange_id,
                                who: encode(who),
                                to: encode(to),
                                asset_ids: copy_u64s(asset_ids),
                                asset_amounts_in: copy_u128s(asset_amounts_in),
                                currency_amounts_out: copy_u128s(currency_amounts_out),
                            },
                        )
                    } else {
                        proof {
                            assert(false);
                        }
                        Err(GatewayError::EventDecodeError)
                    }
                },
            }
        },
    }
}

/// Prepare an add-liquidity call: resolve the signer, decode the
/// destination, build the descriptor, and check that the asset ids,
/// amounts and currency maxima line up one to one.
pub fn prepare_add_liquidity(lookup: &SeedLookup, req: &AddLiquidityInput) -> (r: Result<
    (SigningCapability, CallDescriptor),
    GatewayError,
>)
    ensures
        match lookup {
            SeedLookup::NoAttribute => r matches Err(e) && e is SeedNotProvisioned,
            SeedLookup::Unreachable => r matches Err(e) && e is UpstreamUnavailable,
            SeedLookup::Retrieved(s) => {
                match sr25519_public_of(s@) {
                    None => r matches Err(e) && e is InvalidSeed,
                    Some(pk) => match ss58_parse(req.to@) {
                        None => r matches Err(e) && e is InvalidAccount,
                        Some(idb) => {
                            if req.asset_ids@.len() != req.asset_amounts@.len()
                                || req.asset_ids@.len() != req.max_currencies@.len() {
                                r matches Err(e) && e is ParameterMismatch
                            } else {
                                r matches Ok(p) && p.0.seed_view() == s@ && p.0.public_view()
                                    == pk && valid_params(p.1) && (p.1 matches
                                CallDescriptor::AddLiquidity {
                                    exchange_id,
                                    to,
                                    asset_ids,
                                    asset_amounts,
                                    max_currencies,
                                } && exchange_id == req.exchange_id && to@ == idb && asset_ids@
                                    == req.asset_ids@ && asset_amounts@ == req.asset_amounts@
                                    && max_currencies@ == req.max_currencies@)
                            }
                        },
                    },
                }
            },
        },
{
    let cap = match resolve_lookup(lookup) {
        Ok(c) => c,
        Err(e) => {
            return Err(e);
        },
    };
    let to = match decode(req.to.as_str()) {
        Ok(a) => a,
        Err(e) => {
            return Err(e);
        },
    };
    let call = CallDescriptor::AddLiquidity {
        exchange_id: req.exchange_id,
        to,
        asset_ids: copy_u64s(&req.asset_ids),
        asset_amounts: copy_u128s(&req.asset_amounts),
        max_currencies: copy_u128s(&req.max_currencies),
    };
    match call.validate() {
        Ok(()) => Ok((cap, call)),
        Err(e) => Err(e),
    }
}

/// Turn an add-liquidity outcome into the response: the first
/// liquidity-added event of the finalized log, fields unchanged.
pub fn finish_add_liquidity(outcome: &SubmissionOutcome) -> (r: Result<
    AddLiquidityOutput,
    GatewayError,
>)
    ensures
        match outcome {
            SubmissionOutcome::Pending => r matches Err(e) && e is UpstreamUnavailable,
            SubmissionOutcome::Rejected(reason) => r matches Err(e) && (e matches
            GatewayError::SubmissionRejected(t) && t@ == reason@),
            SubmissionOutcome::Finalized(log) => {
                match first_match(log@, EventTag::DexLiquidityAdded) {
                    None => r matches Err(e) && (e matches GatewayError::EventNotFound(t) && t
                        is DexLiquidityAdded),
                    Some(i) => {
                        if log@[i] is Garbled {
                            r matches Err(e) && e is EventDecodeError
                        } else {
                            log@[i] matches EventRecord::LiquidityAdded {
                                exchange_id,
                                who,
                                to,
                                asset_ids,
                                asset_amounts,
                                currency_amounts,
                            } && (r matches Ok(o) && o.exchange_id == exchange_id && o.who@
                                == ss58_of(who@) && o.to@ == ss58_of(to@) && o.asset_ids@
                                == asset_ids@ && o.asset_amounts@ == asset_amounts@
                                && o.currency_amounts@ == currency_amounts@)
                        }
                    },
                }
            },
        },
{
    match outcome {
        SubmissionOutcome::Pending => Err(GatewayError::UpstreamUnavailable),
        SubmissionOutcome::Rejected(reason) => Err(
            GatewayError::SubmissionRejected(reason.clone()),
        ),
        SubmissionOutcome::Finalized(log) => {
            match find_first(log, EventTag::DexLiquidityAdded) {
                Err(e) => Err(e),
                Ok(None) => Err(GatewayError::EventNotFound(EventTag::DexLiquidityAdded)),
                Ok(Some(i)) => {
                    proof {
                        crate::event::lemma_first_match(log@, EventTag::DexLiquidityAdded);
                    }
                    if let EventRecord::LiquidityAdded {
                        exchange_id,
                        who,
                        to,
                        asset_ids,
                        asset_amounts,
                        currency_amounts,
                    } = &log[i] {
                        Ok(
                            AddLiquidityOutput {
                                exchange_id: *exchange_id,
                                who: encode(who),
                                to: encode(to),
                                asset_ids: copy_u64s(asset_ids),
                                asset_amounts: copy_u128s(asset_amounts),
                                currency_amounts: copy_u128s(currency_amounts),
                            },
                        )
                    } else {
                        proof {
                            assert(false);
                        }
                        Err(GatewayError::EventDecodeError)
                    }
                },
            }
        },
    }
}

/// Prepare a remove-liquidity call: resolve the signer, decode the
/// destination, build the descriptor, and check that the asset ids,
/// liquidities, currency minima and asset minima line up one to one.
pub fn prepare_remove_liquidity(lookup: &SeedLookup, req: &RemoveLiquidityInput) -> (r: Result<
    (SigningCapability, CallDescriptor),
    GatewayError,
>)
    ensures
        match lookup {
            SeedLookup::NoAttribute => r matches Err(e) && e is SeedNotProvisioned,
            SeedLookup::Unreachable => r matches Err(e) && e is UpstreamUnavailable,
            SeedLookup::Retrieved(s) => {
                match sr25519_public_of(s@) {
                    None => r matches Err(e) && e is InvalidSeed,
                    Some(pk) => match ss58_parse(req.to@) {
                        None => r matches Err(e) && e is InvalidAccount,
                        Some(idb) => {
                            if req.asset_ids@.len() != req.liquidities@.len()
                                || req.asset_ids@.len() != req.min_currencies@.len()
                                || req.asset_ids@.len() != req.min_assets@.len() {
                                r matches Err(e) && e is ParameterMismatch
                            } else {
                                r matches Ok(p) && p.0.seed_view() == s@ && p.0.public_view()
                                    == pk && valid_params(p.1) && (p.1 matches
                                CallDescriptor::RemoveLiquidity {
                                    exchange_id,
                                    to,
                                    asset_ids,
                                    liquidities,
                                    min_currencies,
                                    min_assets,
                                } && exchange_id == req.exchange_id && to@ == idb && asset_ids@
                                    == req.asset_ids@ && liquidities@ == req.liquidities@
                                    && min_currencies@ == req.min_currencies@ && min_assets@
                                    == req.min_assets@)
                            }
                        },
                    },
                }
            },
        },
{
    let cap = match resolve_lookup(lookup) {
        Ok(c) => c,
        Err(e) => {
            return Err(e);
        },
    };
    let to = match decode(req.to.as_str()) {
        Ok(a) => a,
        Err(e) => {
            return Err(e);
        },
    };
    let call = CallDescriptor::RemoveLiquidity {
        exchange_id: req.exchange_id,
        to,
        asset_ids: copy_u64s(&req.asset_ids),
        liquidities: copy_u128s(&req.liquidities),
        min_currencies: copy_u128s(&req.min_currencies),
        min_assets: copy_u128s(&req.min_assets),
    };
    match call.validate() {
        Ok(()) => Ok((cap, call)),
        Err(e) => Err(e),
    }
}

/// Turn a remove-liquidity outcome into the response: the first
/// liquidity-removed event of the finalized log, fields unchanged.
pub fn finish_remove_liquidity(outcome: &SubmissionOutcome) -> (r: Result<
    RemoveLiquidityOutput,
    GatewayError,
>)
    ensures
        match outcome {
            SubmissionOutcome::Pending => r matches Err(e) && e is UpstreamUnavailable,
            SubmissionOutcome::Rejected(reason) => r matches Err(e) && (e matches
            GatewayError::SubmissionRejected(t) && t@ == reason@),
            SubmissionOutcome::Finalized(log) => {
                match first_match(log@, EventTag::DexLiquidityRemoved) {
                    None => r matches Err(e) && (e matches GatewayError::EventNotFound(t) && t
                        is DexLiquidityRemoved),
                    Some(i) => {
                        if log@[i] is Garbled {
                            r matches Err(e) && e is EventDecodeError
                        } else {
                            log@[i] matches EventRecord::LiquidityRemoved {
                                exchange_id,
                                who,
                                to,
                                asset_ids,
                                asset_amounts,
                                currency_amounts,
                            } && (r matches Ok(o) && o.exchange_id == exchange_id && o.who@
                                == ss58_of(who@) && o.to@ == ss58_of(to@) && o.asset_ids@
                                == asset_ids@ && o.asset_amounts@ == asset_amounts@
                                && o.currency_amounts@ == currency_amounts@)
                        }
                    },
                }
            },
        },
{
    match outcome {
        SubmissionOutcome::Pending => Err(GatewayError::UpstreamUnavailable),
        SubmissionOutcome::Rejected(reason) => Err(
            GatewayError::SubmissionRejected(reason.clone()),
        ),
        SubmissionOutcome::Finalized(log) => {
            match find_first(log, EventTag::DexLiquidityRemoved) {
                Err(e) => Err(e),
                Ok(None) => Err(GatewayError::EventNotFound(EventTag::DexLiquidityRemoved)),
                Ok(Some(i)) => {
                    proof {
                        crate::event::lemma_first_match(log@, EventTag::DexLiquidityRemoved);
                    }
                    if let EventRecord::LiquidityRemoved {
                        exchange_id,
                        who,
                        to,
                        asset_ids,
                        asset_amounts,
                        currency_amounts,
                    } = &log[i] {
                        Ok(
                            RemoveLiquidityOutput {
                                exchange_id: *exchange_id,
                                who: encode(who),
                                to: encode(to),
                                asset_ids: copy_u64s(asset_ids),
                                asset_amounts: copy_u128s(asset_amounts),
                                currency_amounts: copy_u128s(currency_amounts),
                            },
                        )
                    } else {
                        proof {
                            assert(false);
                        }
                        Err(GatewayError::EventDecodeError)
                    }
                },
            }
        },
    }
}

} // verus!
