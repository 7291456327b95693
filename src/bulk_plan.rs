//! Planning a bulk transfer through the disperse contract: the recipients
//! and amounts of the single call, its value, gas limit and gas price, and
//! the balance check.

use vstd::prelude::*;
use crate::bulk_input::BulkDisperseType;
use crate::helpers::{calculate_disperse_gas_limit, disperse_gas_spec};
use crate::split::sum_amounts;
use crate::types::Address;

verus! {

/// The call of a bulk transfer.
pub struct BulkPlan {
    pub recipients: Vec<Address>,
    /// Wei for each recipient, in the same order.
    pub amounts: Vec<u128>,
    /// The value sent with the call: exactly the sum of the amounts.
    pub total_value: u128,
    pub gas_limit: u64,
    pub gas_price: u128,
}

/// Why a bulk transfer cannot be planned.
pub enum BulkPlanError {
    /// A tip without anyone to receive it.
    MissingTipRecipient,
    /// The list is empty.
    NoRecipients,
    /// An equal share of the amount would be zero.
    ZeroShare,
    /// The source cannot pay the amounts and the gas.
    BalanceTooLow { balance: u128, needed: u128 },
    /// The amount to send is below the sum of the listed amounts.
    AmountBelowSum { amount: u128, sum: u128 },
    /// A sum does not fit in 128 bits.
    AmountOverflow,
}

proof fn lemma_sum_prefix_le(s: Seq<u128>, j: int)
    requires
        0 <= j <= s.len(),
    ensures
        sum_amounts(s.subrange(0, j)) <= sum_amounts(s),
    decreases s.len(),
{
    if j < s.len() {
        lemma_sum_prefix_le(s.drop_last(), j);
        assert(s.drop_last().subrange(0, j) =~= s.subrange(0, j));
    } else {
        assert(s.subrange(0, j) =~= s);
    }
}

/// The recipients of the call: the listed ones, then the tip recipient when
/// there is a tip.
pub open spec fn bulk_recipients(dt: BulkDisperseType, tip: u128, tip_recipient: Option<Address>) -> Seq<Seq<u8>> {
    let listed = match dt {
        BulkDisperseType::Equal(v) => v@.map_values(|a: Address| a@),
        BulkDisperseType::Mixed(v) => v@.map_values(|p: (Address, u128)| p.0@),
    };
    if tip > 0 && tip_recipient is Some {
        listed.push(tip_recipient.unwrap()@)
    } else {
        listed
    }
}

/// The amounts of the call: an equal share of `amount` for each listed
/// address, or the listed amounts, then the tip when there is one.
pub open spec fn bulk_amounts(dt: BulkDisperseType, amount: u128, tip: u128) -> Seq<u128> {
    let listed = match dt {
        BulkDisperseType::Equal(v) => Seq::new(
            v.len() as nat,
            |i: int| ((amount as int) / (v.len() as int)) as u128,
        ),
        BulkDisperseType::Mixed(v) => v@.map_values(|p: (Address, u128)| p.1),
    };
    if tip > 0 {
        listed.push(tip)
    } else {
        listed
    }
}

/// The number of listed recipients.
pub open spec fn listed_count(dt: BulkDisperseType) -> int {
    match dt {
        BulkDisperseType::Equal(v) => v.len() as int,
        BulkDisperseType::Mixed(v) => v.len() as int,
    }
}

/// The gas price of the call: the oracle's price scaled by a speed in
/// hundredths.
pub open spec fn bulk_gas_price(base_gas_price: u128, gas_speed_bp: u64) -> int {
    base_gas_price * gas_speed_bp / 100
}

/// What the source must hold for the call: its value and its gas.
pub open spec fn bulk_needed(amounts: Seq<u128>, base_gas_price: u128, gas_speed_bp: u64) -> int {
    sum_amounts(amounts) + bulk_gas_price(base_gas_price, gas_speed_bp) * disperse_gas_spec(
        amounts.len() as int,
    )
}

/// Some sum or product of the plan does not fit in 128 bits.
pub open spec fn bulk_overflows(amounts: Seq<u128>, base_gas_price: u128, gas_speed_bp: u64) -> bool {
    let price = bulk_gas_price(base_gas_price, gas_speed_bp);
    ||| sum_amounts(amounts) > u128::MAX
    ||| base_gas_price * gas_speed_bp > u128::MAX
    ||| price * disperse_gas_spec(amounts.len() as int) > u128::MAX
    ||| bulk_needed(amounts, base_gas_price, gas_speed_bp) > u128::MAX
}

/// The list, the tip and the shares are fit to plan: a tip has a recipient,
/// someone is listed, and an equal share is not zero.
pub open spec fn bulk_input_fit(dt: BulkDisperseType, amount: u128, tip: u128, tip_recipient: Option<Address>) -> bool {
    &&& !(tip > 0 && tip_recipient is None)
    &&& listed_count(dt) > 0
    &&& (dt is Equal ==> (amount as int) / listed_count(dt) > 0)
}

/// Plans the call of a bulk transfer of `amount_to_send` wei (shared equally,
/// or at least the sum of the listed amounts), with an optional tip, from a
/// source holding `source_balance`. The gas price is the oracle's scaled by
/// a speed multiplier in hundredths; the gas limit grows with the number of
/// recipients.
#[verifier::loop_isolation(false)]
pub fn plan_bulk_disperse(
    disperse_type: &BulkDisperseType,
    amount_to_send: u128,
    tip_amount: u128,
    tip_recipient: Option<Address>,
    source_balance: u128,
    base_gas_price: u128,
    gas_speed_bp: u64,
) -> (r: Result<BulkPlan, BulkPlanError>)
    ensures
        tip_amount > 0 && tip_recipient is None ==> r matches Err(BulkPlanError::MissingTipRecipient),
        !(tip_amount > 0 && tip_recipient is None) && listed_count(*disperse_type) == 0 ==> r matches Err(BulkPlanError::NoRecipients),
        !(tip_amount > 0 && tip_recipient is None) && listed_count(*disperse_type) > 0 && disperse_type is Equal
            && (amount_to_send as int) / listed_count(*disperse_type) == 0 ==> r matches Err(BulkPlanError::ZeroShare),
        r matches Ok(p) ==> {
            let amounts = bulk_amounts(*disperse_type, amount_to_send, tip_amount);
            &&& !(tip_amount > 0 && tip_recipient is None)
            &&& listed_count(*disperse_type) > 0
            &&& (disperse_type is Equal ==> (amount_to_send as int) / listed_count(*disperse_type) > 0)
            &&& p.amounts@ == amounts
            &&& p.recipients@.map_values(|a: Address| a@) == bulk_recipients(*disperse_type, tip_amount, tip_recipient)
            &&& p.total_value == sum_amounts(amounts)
            &&& p.gas_price == base_gas_price * gas_speed_bp / 100
            &&& p.gas_limit == disperse_gas_spec(p.recipients.len() as int)
            &&& source_balance >= p.total_value + p.gas_price * p.gas_limit
            &&& (disperse_type is Mixed ==> amount_to_send >= p.total_value)
        },
        ({
            let amounts = bulk_amounts(*disperse_type, amount_to_send, tip_amount);
            let needed = bulk_needed(amounts, base_gas_price, gas_speed_bp);
            let fit = bulk_input_fit(*disperse_type, amount_to_send, tip_amount, tip_recipient);
            let overflows = bulk_overflows(amounts, base_gas_price, gas_speed_bp);
            let below = disperse_type is Mixed && amount_to_send < sum_amounts(amounts);
            &&& fit ==> (r matches Err(BulkPlanError::AmountOverflow) <==> overflows)
            &&& fit && !overflows && source_balance < needed ==> (r matches Err(
                BulkPlanError::BalanceTooLow { balance, needed: n },
            ) && balance == source_balance && n == needed)
            &&& fit && !overflows && source_balance >= needed && below ==> (r matches Err(
                BulkPlanError::AmountBelowSum { amount, sum },
            ) && amount == amount_to_send && sum == sum_amounts(amounts))
            &&& fit && !overflows && source_balance >= needed && !below ==> r is Ok
        }),
{
    if tip_amount > 0 && tip_recipient.is_none() {
        return Err(BulkPlanError::MissingTipRecipient);
    }
    let mut recipients: Vec<Address> = Vec::new();
    let mut amounts: Vec<u128> = Vec::new();
    let is_equal = match disperse_type {
        BulkDisperseType::Equal(_) => true,
        BulkDisperseType::Mixed(_) => false,
    };
    match disperse_type {
        BulkDisperseType::Equal(addresses) => {
            if addresses.len() == 0 {
                return Err(BulkPlanError::NoRecipients);
            }
            let share = amount_to_send / (addresses.len() as u128);
            if share == 0 {
                return Err(BulkPlanError::ZeroShare);
            }
            let mut i: usize = 0;
            while i < addresses.len()
                invariant
                    i <= addresses.len(),
                    recipients.len() == i,
                    amounts.len() == i,
                    share == (amount_to_send as int) / (addresses.len() as int),
                    forall|j: int| 0 <= j < i ==> #[trigger] recipients@[j] == addresses@[j],
                    forall|j: int| 0 <= j < i ==> #[trigger] amounts@[j] == share,
                decreases addresses.len() - i,
            {
                recipients.push(addresses[i]);
                amounts.push(share);
                i = i + 1;
            }
            proof {
                assert(recipients@.map_values(|a: Address| a@) =~= addresses@.map_values(|a: Address| a@));
                assert(amounts@ =~= Seq::new(addresses.len() as nat, |i: int| ((amount_to_send as int) / (addresses.len() as int)) as u128));
            }
        },
        BulkDisperseType::Mixed(pairs) => {
            if pairs.len() == 0 {
                return Err(BulkPlanError::NoRecipients);
            }
            let mut i: usize = 0;
            while i < pairs.len()
                invariant
                    i <= pairs.len(),
                    recipients.len() == i,
                    amounts.len() == i,
                    forall|j: int| 0 <= j < i ==> #[trigger] recipients@[j] == pairs@[j].0,
                    forall|j: int| 0 <= j < i ==> #[trigger] amounts@[j] == pairs@[j].1,
                decreases pairs.len() - i,
            {
                recipients.push(pairs[i].0);
                amounts.push(pairs[i].1);
                i = i + 1;
            }
            proof {
                assert(recipients@.map_values(|a: Address| a@) =~= pairs@.map_values(|p: (Address, u128)| p.0@));
                assert(amounts@ =~= pairs@.map_values(|p: (Address, u128)| p.1));
            }
        },
    }
    let ghost listed_recipients = recipients@;
    let ghost listed_amounts = amounts@;
    if tip_amount > 0 {
        match tip_recipient {
            Some(a) => {
                recipients.push(a);
                amounts.push(tip_amount);
                proof {
                    assert(recipients@.map_values(|a: Address| a@) =~= listed_recipients.map_values(|a: Address| a@).push(a@));
                }
            },
            None => {},
        }
    }
    assert(amounts@ == bulk_amounts(*disperse_type, amount_to_send, tip_amount));
    assert(recipients@.map_values(|a: Address| a@) == bulk_recipients(*disperse_type, tip_amount, tip_recipient));
    let mut total: u128 = 0;
    let mut k: usize = 0;
    while k < amounts.len()
        invariant
            k <= amounts.len(),
            total == sum_amounts(amounts@.subrange(0, k as int)),
        decreases amounts.len() - k,
    {
        proof {
            assert(amounts@.subrange(0, k + 1).drop_last() =~= amounts@.subrange(0, k as int));
        }
        total = match total.checked_add(amounts[k]) {
            Some(t) => t,
            None => {
                proof {
                    lemma_sum_prefix_le(amounts@, k + 1);
                }
                return Err(BulkPlanError::AmountOverflow);
            },
        };
        k = k + 1;
    }
    proof {
        assert(amounts@.subrange(0, amounts.len() as int) =~= amounts@);
    }
    let scaled = match base_gas_price.checked_mul(gas_speed_bp as u128) {
        Some(v) => v,
        None => {
            return Err(BulkPlanError::AmountOverflow);
        },
    };
    let gas_price = scaled / 100;
    let gas_limit = calculate_disperse_gas_limit(recipients.len());
    let cost = match gas_price.checked_mul(gas_limit as u128) {
        Some(v) => v,
        None => {
            return Err(BulkPlanError::AmountOverflow);
        },
    };
    let needed = match total.checked_add(cost) {
        Some(v) => v,
        None => {
            return Err(BulkPlanError::AmountOverflow);
        },
    };
    if source_balance < needed {
        return Err(BulkPlanError::BalanceTooLow { balance: source_balance, needed });
    }
    if !is_equal && amount_to_send < total {
        return Err(BulkPlanError::AmountBelowSum { amount: amount_to_send, sum: total });
    }
    Ok(BulkPlan { recipients, amounts, total_value: total, gas_limit, gas_price })
}

} // verus!
