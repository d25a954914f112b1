//! Call descriptors: one tagged value per ledger operation the gateway
//! submits, with the validation every operation must pass before any
//! ledger call — parallel vector parameters of unequal length are
//! rejected here, never left to the remote ledger.

use vstd::prelude::*;

use crate::error::GatewayError;
use crate::event::EventTag;
use crate::ss58::AccountIdentity;

verus! {

/// One ledger operation with its typed parameters, ready to be built
/// into an extrinsic and signed.
pub enum CallDescriptor {
    Transfer { to: AccountIdentity, amount: u128 },
    CreateExchange {
        exchange_id: u32,
        currency_class_id: u64,
        currency_asset_id: u64,
        asset_class_id: u64,
        lp_class_id: u64,
    },
    BuyAssets {
        exchange_id: u32,
        asset_ids: Vec<u64>,
        asset_amounts_out: Vec<u128>,
        max_currency: u128,
        to: AccountIdentity,
    },
    SellAssets {
        exchange_id: u32,
        asset_ids: Vec<u64>,
        asset_amounts_in: Vec<u128>,
        min_currency: u128,
        to: AccountIdentity,
    },
    AddLiquidity {
        exchange_id: u32,
        to: AccountIdentity,
        asset_ids: Vec<u64>,
        asset_amounts: Vec<u128>,
        max_currencies: Vec<u128>,
    },
    RemoveLiquidity {
        exchange_id: u32,
        to: AccountIdentity,
        asset_ids: Vec<u64>,
        liquidities: Vec<u128>,
        min_currencies: Vec<u128>,
        min_assets: Vec<u128>,
    },
    CreateEscrow { owner: AccountIdentity },
    DepositAssets {
        escrow: AccountIdentity,
        class_id: u64,
        asset_ids: Vec<u64>,
        amounts: Vec<u128>,
    },
    RefundAssets { escrow: AccountIdentity },
}

/// Whether the descriptor's parallel vector parameters line up: every
/// per-asset vector must pair one entry with each asset id.
pub open spec fn valid_params(c: CallDescriptor) -> bool {
    match c {
        CallDescriptor::BuyAssets { asset_ids, asset_amounts_out, .. } => asset_ids@.len()
            == asset_amounts_out@.len(),
        CallDescriptor::SellAssets { asset_ids, asset_amounts_in, .. } => asset_ids@.len()
            == asset_amounts_in@.len(),
        CallDescriptor::AddLiquidity { asset_ids, asset_amounts, max_currencies, .. } => {
            asset_ids@.len() == asset_amounts@.len() && asset_ids@.len()
                == max_currencies@.len()
        },
        CallDescriptor::RemoveLiquidity {
            asset_ids,
            liquidities,
            min_currencies,
            min_assets,
            ..
        } => {
            asset_ids@.len() == liquidities@.len() && asset_ids@.len() == min_currencies@.len()
                && asset_ids@.len() == min_assets@.len()
        },
        CallDescriptor::DepositAssets { asset_ids, amounts, .. } => asset_ids@.len()
            == amounts@.len(),
        _ => true,
    }
}

/// The event type whose first occurrence in the finalized log is this
/// operation's outcome.
pub open spec fn expected_event(c: CallDescriptor) -> EventTag {
    match c {
        CallDescriptor::Transfer { .. } => EventTag::BalancesTransfer,
        CallDescriptor::CreateExchange { .. } => EventTag::DexExchangeCreated,
        CallDescriptor::BuyAssets { .. } => EventTag::DexCurrencyToAsset,
        CallDescriptor::SellAssets { .. } => EventTag::DexAssetToCurrency,
        CallDescriptor::AddLiquidity { .. } => EventTag::DexLiquidityAdded,
        CallDescriptor::RemoveLiquidity { .. } => EventTag::DexLiquidityRemoved,
        CallDescriptor::CreateEscrow { .. } => EventTag::EscrowCreated,
        CallDescriptor::DepositAssets { .. } => EventTag::EscrowDeposit,
        CallDescriptor::RefundAssets { .. } => EventTag::EscrowRefund,
    }
}

impl CallDescriptor {
    /// Check the parallel-vector parameters before submission: a
    /// mismatch is a client input error, rejected here so that no
    /// ledger call is ever attempted for it.
    pub fn validate(&self) -> (r: Result<(), GatewayError>)
        ensures
            r is Ok <==> valid_params(*self),
            r is Err ==> r == Err::<(), GatewayError>(GatewayError::ParameterMismatch),
    {
        let ok = match self {
            CallDescriptor::BuyAssets { asset_ids, asset_amounts_out, .. } => asset_ids.len()
                == asset_amounts_out.len(),
            CallDescriptor::SellAssets { asset_ids, asset_amounts_in, .. } => asset_ids.len()
                == asset_amounts_in.len(),
            CallDescriptor::AddLiquidity { asset_ids, asset_amounts, max_currencies, .. } => {
                asset_ids.len() == asset_amounts.len() && asset_ids.len()
                    == max_currencies.len()
            },
            CallDescriptor::RemoveLiquidity {
                asset_ids,
                liquidities,
                min_currencies,
                min_assets,
                ..
            } => {
                asset_ids.len() == liquidities.len() && asset_ids.len() == min_currencies.len()
                    && asset_ids.len() == min_assets.len()
            },
            CallDescriptor::DepositAssets { asset_ids, amounts, .. } => asset_ids.len()
                == amounts.len(),
            _ => true,
        };
        if ok {
            Ok(())
        } else {
            Err(GatewayError::ParameterMismatch)
        }
    }

    /// The event type this operation awaits in the finalized log.
    pub fn expected_event_tag(&self) -> (t: EventTag)
        ensures
            t == expected_event(*self),
    {
        match self {
            CallDescriptor::Transfer { .. } => EventTag::BalancesTransfer,
            CallDescriptor::CreateExchange { .. } => EventTag::DexExchangeCreated,
            CallDescriptor::BuyAssets { .. } => EventTag::DexCurrencyToAsset,
            CallDescriptor::SellAssets { .. } => EventTag::DexAssetToCurrency,
            CallDescriptor::AddLiquidity { .. } => EventTag::DexLiquidityAdded,
            CallDescriptor::RemoveLiquidity { .. } => EventTag::DexLiquidityRemoved,
            CallDescriptor::CreateEscrow { .. } => EventTag::EscrowCreated,
            CallDescriptor::DepositAssets { .. } => EventTag::EscrowDeposit,
            CallDescriptor::RefundAssets { .. } => EventTag::EscrowRefund,
        }
    }
}

} // verus!
