//! Typed events of a finalized block's event log, and the extraction of
//! the first event matching an expected discriminant.

use vstd::prelude::*;

use crate::error::GatewayError;
use crate::ss58::AccountIdentity;

verus! {

/// Discriminant of an event type that an operation expects to find in
/// the finalized event log.
#[derive(Clone, Copy, Debug, PartialEq, Eq, Structural)]
pub enum EventTag {
    BalancesTransfer,
    DexExchangeCreated,
    DexCurrencyToAsset,
    DexAssetToCurrency,
    DexLiquidityAdded,
    DexLiquidityRemoved,
    EscrowCreated,
    EscrowDeposit,
    EscrowRefund,
}

/// One entry of a finalized block's event log, already decoded into its
/// typed field set. `Unrelated` stands for any event of a type that no
/// operation of this gateway expects. `Garbled` stands for an entry whose
/// discriminant matched but whose payload could not be decoded; meeting
/// one while scanning for that discriminant is a server-side fault.
#[derive(Clone, Debug)]
pub enum EventRecord {
    Transfer { from: AccountIdentity, to: AccountIdentity, amount: u128 },
    ExchangeCreated { exchange_id: u32, who: AccountIdentity },
    CurrencyToAsset {
        exchange_id: u32,
        who: AccountIdentity,
        to: AccountIdentity,
        asset_ids: Vec<u64>,
        asset_amounts_out: Vec<u128>,
        currency_amounts_in: Vec<u128>,
    },
    AssetToCurrency {
        exchange_id: u32,
        who: AccountIdentity,
        to: AccountIdentity,
        asset_ids: Vec<u64>,
        asset_amounts_in: Vec<u128>,
        currency_amounts_out: Vec<u128>,
    },
    LiquidityAdded {
        exchange_id: u32,
        who: AccountIdentity,
        to: AccountIdentity,
        asset_ids: Vec<u64>,
        asset_amounts: Vec<u128>,
        currency_amounts: Vec<u128>,
    },
    LiquidityRemoved {
        exchange_id: u32,
        who: AccountIdentity,
        to: AccountIdentity,
        asset_ids: Vec<u64>,
        asset_amounts: Vec<u128>,
        currency_amounts: Vec<u128>,
    },
    Created { escrow: AccountIdentity, operator: AccountIdentity, owner: AccountIdentity },
    Deposit { escrow: AccountIdentity, operator: AccountIdentity, owner: AccountIdentity },
    Refund { escrow: AccountIdentity, operator: AccountIdentity, owner: AccountIdentity },
    Unrelated,
    Garbled(EventTag),
}

/// Whether an event log entry carries the given discriminant. A garbled
/// entry still carries its discriminant: the log names the event type
/// even where the payload cannot be decoded.
pub open spec fn has_tag(e: EventRecord, t: EventTag) -> bool {
    match e {
        EventRecord::Transfer { .. } => t is BalancesTransfer,
        EventRecord::ExchangeCreated { .. } => t is DexExchangeCreated,
        EventRecord::CurrencyToAsset { .. } => t is DexCurrencyToAsset,
        EventRecord::AssetToCurrency { .. } => t is DexAssetToCurrency,
        EventRecord::LiquidityAdded { .. } => t is DexLiquidityAdded,
        EventRecord::LiquidityRemoved { .. } => t is DexLiquidityRemoved,
        EventRecord::Created { .. } => t is EscrowCreated,
        EventRecord::Deposit { .. } => t is EscrowDeposit,
        EventRecord::Refund { .. } => t is EscrowRefund,
        EventRecord::Unrelated => false,
        EventRecord::Garbled(g) => g == t,
    }
}

/// Position of the first entry of `log` carrying the discriminant `t`,
/// if any entry does.
pub open spec fn first_match(log: Seq<EventRecord>, t: EventTag) -> Option<int>
    decreases log.len(),
{
    if log.len() == 0 {
        None
    } else if has_tag(log[0], t) {
        Some(0)
    } else {
        match first_match(log.drop_first(), t) {
            None => None,
            Some(i) => Some(i + 1),
        }
    }
}

/// The position that `first_match` returns is in range, carries the
/// discriminant, and no earlier position does; `None` means no position
/// carries it.
pub proof fn lemma_first_match(log: Seq<EventRecord>, t: EventTag)
    ensures
        match first_match(log, t) {
            Some(i) => 0 <= i < log.len() && has_tag(log[i], t)
                && forall|j: int| 0 <= j < i ==> !has_tag(log[j], t),
            None => forall|j: int| 0 <= j < log.len() ==> !has_tag(log[j], t),
        },
    decreases log.len(),
{
    if log.len() > 0 && !has_tag(log[0], t) {
        lemma_first_match(log.drop_first(), t);
        match first_match(log.drop_first(), t) {
            Some(i) => {
                assert(log.drop_first()[i] == log[i + 1]);
                assert forall|j: int| 0 <= j < i + 1 implies !has_tag(log[j], t) by {
                    if j > 0 {
                        assert(log.drop_first()[j - 1] == log[j]);
                    }
                };
            },
            None => {
                assert forall|j: int| 0 <= j < log.len() implies !has_tag(log[j], t) by {
                    if j > 0 {
                        assert(log.drop_first()[j - 1] == log[j]);
                    }
                };
            },
        }
    }
}

/// Scan the event log in on-chain order for the first entry carrying the
/// expected discriminant. Absence is a reportable outcome, not an error;
/// a garbled matching entry is a decode failure, a server-side fault.
pub fn find_first(log: &Vec<EventRecord>, t: EventTag) -> (r: Result<Option<usize>, GatewayError>)
    ensures
        match first_match(log@, t) {
            None => r == Ok::<Option<usize>, GatewayError>(None),
            Some(i) => {
                if log@[i] is Garbled {
                    r == Err::<Option<usize>, GatewayError>(GatewayError::EventDecodeError)
                } else {
                    r matches Ok(o) && (o matches Some(u) && u == i)
                }
            },
        },
{
    let mut k: usize = 0;
    while k < log.len()
        invariant
            0 <= k <= log@.len(),
            forall|j: int| 0 <= j < k ==> !has_tag(log@[j], t),
        decreases log@.len() - k,
    {
        let hit = match &log[k] {
            EventRecord::Transfer { .. } => matches!(t, EventTag::BalancesTransfer),
            EventRecord::ExchangeCreated { .. } => matches!(t, EventTag::DexExchangeCreated),
            EventRecord::CurrencyToAsset { .. } => matches!(t, EventTag::DexCurrencyToAsset),
            EventRecord::AssetToCurrency { .. } => matches!(t, EventTag::DexAssetToCurrency),
            EventRecord::LiquidityAdded { .. } => matches!(t, EventTag::DexLiquidityAdded),
            EventRecord::LiquidityRemoved { .. } => matches!(t, EventTag::DexLiquidityRemoved),
            EventRecord::Created { .. } => matches!(t, EventTag::EscrowCreated),
            EventRecord::Deposit { .. } => matches!(t, EventTag::EscrowDeposit),
            EventRecord::Refund { .. } => matches!(t, EventTag::EscrowRefund),
            EventRecord::Unrelated => false,
            EventRecord::Garbled(g) => *g == t,
        };
        if hit {
            proof {
                lemma_first_match(log@, t);
                assert(has_tag(log@[k as int], t));
                assert(first_match(log@, t) == Some(k as int));
            }
            if matches!(&log[k], EventRecord::Garbled(_)) {
                return Err(GatewayError::EventDecodeError);
            }
            return Ok(Some(k));
        }
        k = k + 1;
    }
    proof {
        lemma_first_match(log@, t);
    }
    Ok(None)
}

/// An event with the expected discriminant that stands between unrelated
/// entries is found, with its fields untouched, wherever it stands: the
/// surrounding entries play no part in the result.
pub proof fn lemma_extraction_position_independent(
    pre: Seq<EventRecord>,
    e: EventRecord,
    post: Seq<EventRecord>,
    t: EventTag,
)
    requires
        forall|j: int| 0 <= j < pre.len() ==> !has_tag(pre[j], t),
        has_tag(e, t),
    ensures
        first_match(pre + seq![e] + post, t) == Some(pre.len() as int),
        (pre + seq![e] + post)[pre.len() as int] == e,
    decreases pre.len(),
{
    let log = pre + seq![e] + post;
    if pre.len() == 0 {
        assert(log[0] == e);
        assert(has_tag(log[0], t));
    } else {
        assert(log[0] == pre[0]);
        assert(!has_tag(log[0], t));
        lemma_extraction_position_independent(pre.drop_first(), e, post, t);
        assert(log.drop_first() =~= pre.drop_first() + seq![e] + post);
    }
}

/// A log in which no entry carries the expected discriminant yields no
/// match at all.
pub proof fn lemma_extraction_absent(log: Seq<EventRecord>, t: EventTag)
    requires
        forall|j: int| 0 <= j < log.len() ==> !has_tag(log[j], t),
    ensures
        first_match(log, t) is None,
{
    lemma_first_match(log, t);
    if first_match(log, t) is Some {
        let i = first_match(log, t)->0;
        assert(has_tag(log[i], t));
    }
}

} // verus!
