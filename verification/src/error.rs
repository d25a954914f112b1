//! The gateway's error taxonomy, and its mapping to the short messages
//! that the HTTP surface returns in a bad-request envelope.

use vstd::prelude::*;

use crate::event::EventTag;

verus! {

/// One classified failure of the pipeline. Each stage returns a
/// distinguishable variant rather than a generic failure, so the
/// operation handler can choose the right message.
#[derive(Debug, Clone, PartialEq)]
pub enum GatewayError {
    /// Malformed account string; rejected before any ledger call.
    InvalidAccount,
    /// Malformed key material: the seed phrase does not derive a key pair.
    InvalidSeed,
    /// The identity provider holds no seed for this user.
    SeedNotProvisioned,
    /// Parallel vector parameters of unequal length; rejected before
    /// submission.
    ParameterMismatch,
    /// Cryptographic failure while producing a signature.
    SigningError,
    /// The ledger refused or dropped the transaction; carries the
    /// ledger's reason verbatim.
    SubmissionRejected(String),
    /// The transaction finalized but the expected event is absent.
    EventNotFound(EventTag),
    /// Malformed event payload in an otherwise well-formed log.
    EventDecodeError,
    /// Identity provider or ledger connection unreachable.
    UpstreamUnavailable,
}

/// The full path of the expected event type, as the ledger's runtime
/// names it; the message for an absent event names this path.
pub fn event_path(t: EventTag) -> (r: String)
    ensures
        t is BalancesTransfer ==> r@ == "sugarfunge::balances::events::Transfer"@,
        t is DexExchangeCreated ==> r@ == "sugarfunge::dex::events::ExchangeCreated"@,
        t is DexCurrencyToAsset ==> r@ == "sugarfunge::dex::events::CurrencyToAsset"@,
        t is DexAssetToCurrency ==> r@ == "sugarfunge::dex::events::AssetToCurrency"@,
        t is DexLiquidityAdded ==> r@ == "sugarfunge::dex::events::LiquidityAdded"@,
        t is DexLiquidityRemoved ==> r@ == "sugarfunge::dex::events::LiquidityRemoved"@,
        t is EscrowCreated ==> r@ == "sugarfunge::escrow::events::Created"@,
        t is EscrowDeposit ==> r@ == "sugarfunge::escrow::events::Deposit"@,
        t is EscrowRefund ==> r@ == "sugarfunge::escrow::events::Refund"@,
{
    match t {
        EventTag::BalancesTransfer => String::from_str("sugarfunge::balances::events::Transfer"),
        EventTag::DexExchangeCreated => String::from_str("sugarfunge::dex::events::ExchangeCreated"),
        EventTag::DexCurrencyToAsset => String::from_str("sugarfunge::dex::events::CurrencyToAsset"),
        EventTag::DexAssetToCurrency => String::from_str("sugarfunge::dex::events::AssetToCurrency"),
        EventTag::DexLiquidityAdded => String::from_str("sugarfunge::dex::events::LiquidityAdded"),
        EventTag::DexLiquidityRemoved => String::from_str("sugarfunge::dex::events::LiquidityRemoved"),
        EventTag::EscrowCreated => String::from_str("sugarfunge::escrow::events::Created"),
        EventTag::EscrowDeposit => String::from_str("sugarfunge::escrow::events::Deposit"),
        EventTag::EscrowRefund => String::from_str("sugarfunge::escrow::events::Refund"),
    }
}

impl GatewayError {
    /// The message of the expected event's absence: the prefix the
    /// gateway has always used, followed by the event's full path.
    pub open spec fn not_found_message(t: EventTag) -> Seq<char> {
        "Failed to find "@ + match t {
            EventTag::BalancesTransfer => "sugarfunge::balances::events::Transfer"@,
            EventTag::DexExchangeCreated => "sugarfunge::dex::events::ExchangeCreated"@,
            EventTag::DexCurrencyToAsset => "sugarfunge::dex::events::CurrencyToAsset"@,
            EventTag::DexAssetToCurrency => "sugarfunge::dex::events::AssetToCurrency"@,
            EventTag::DexLiquidityAdded => "sugarfunge::dex::events::LiquidityAdded"@,
            EventTag::DexLiquidityRemoved => "sugarfunge::dex::events::LiquidityRemoved"@,
            EventTag::EscrowCreated => "sugarfunge::escrow::events::Created"@,
            EventTag::EscrowDeposit => "sugarfunge::escrow::events::Deposit"@,
            EventTag::EscrowRefund => "sugarfunge::escrow::events::Refund"@,
        }
    }

    /// The short message that the operation handler places in the
    /// bad-request envelope for this failure. A rejected submission
    /// surfaces the ledger's reason verbatim.
    pub fn message(&self) -> (r: String)
        ensures
            match self {
                GatewayError::InvalidAccount => r@ == "Invalid account"@,
                GatewayError::InvalidSeed => r@ == "Invalid seed"@,
                GatewayError::SeedNotProvisioned => r@ == "Not found user Attributes"@,
                GatewayError::ParameterMismatch => r@ == "Parameter vector lengths differ"@,
                GatewayError::SigningError => r@ == "Failed to sign transaction"@,
                GatewayError::SubmissionRejected(reason) => r@ == reason@,
                GatewayError::EventNotFound(t) => r@ == GatewayError::not_found_message(*t),
                GatewayError::EventDecodeError => r@ == "Failed to decode event"@,
                GatewayError::UpstreamUnavailable => r@ == "Failed to find user::getAttributes"@,
            },
    {
        match self {
            GatewayError::InvalidAccount => String::from_str("Invalid account"),
            GatewayError::InvalidSeed => String::from_str("Invalid seed"),
            GatewayError::SeedNotProvisioned => String::from_str("Not found user Attributes"),
            GatewayError::ParameterMismatch => String::from_str("Parameter vector lengths differ"),
            GatewayError::SigningError => String::from_str("Failed to sign transaction"),
            GatewayError::SubmissionRejected(reason) => reason.clone(),
            GatewayError::EventNotFound(t) => {
                let mut m = String::from_str("Failed to find ");
                let path = event_path(*t);
                m.append(path.as_str());
                m
            },
            GatewayError::EventDecodeError => String::from_str("Failed to decode event"),
            GatewayError::UpstreamUnavailable => String::from_str("Failed to find user::getAttributes"),
        }
    }
}

} // verus!
