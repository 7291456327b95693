//! Split planning: turns a funded source balance into transfers to several
//! recipients, in equal or random amounts, never spending more than the
//! source holds once the reserved balance and every fee are set aside.

use vstd::prelude::*;
use crate::text::{decimal, push_decimal};
use crate::transaction::{amounts_of, PendingTransaction};
use crate::types::AccountInfo;
use crate::units::{address_text, ether_text, format_ether, hex_of};
use vstd::string::*;
use rand::Rng;

verus! {

/// What the sum of a plan costs the source: each amount plus one fee.
pub open spec fn total_sent(amounts: Seq<u128>, fee: int) -> int
    decreases amounts.len(),
{
    if amounts.len() == 0 {
        0
    } else {
        total_sent(amounts.drop_last(), fee) + amounts.last() + fee
    }
}

/// The source balance after the transfers of `amounts` and their fees.
pub open spec fn running_balance(source: int, amounts: Seq<u128>, fee: int) -> int {
    source - total_sent(amounts, fee)
}

/// Random mode stops planning at a step with `cur` on the source and `rem`
/// recipients left (this one included) when the balance cannot cover the
/// reserve, the fees of every recipient left and one minimum transfer, or
/// when an even share of what is left falls under the minimum.
pub open spec fn random_stops(cur: int, rem: int, min: int, fee: int, keep: int) -> bool {
    ||| cur <= keep + fee * rem + min
    ||| (rem > 1 && (cur - keep - fee * rem) / rem < min)
}

/// The largest amount a non-final random step may send: an even share of
/// what is left above the reserve and the fees of every recipient left.
pub open spec fn max_share(cur: int, rem: int, fee: int, keep: int) -> int {
    (cur - keep - fee * rem) / rem
}

/// The amount `a` is allowed at a step that does not stop: the final
/// recipient gets exactly what is left above the reserve and its own fee;
/// any other gets at least the minimum and at most its share, and less than
/// its share whenever the share is above the minimum.
pub open spec fn random_step_ok(a: int, cur: int, rem: int, min: int, fee: int, keep: int) -> bool {
    if rem == 1 {
        a == cur - keep - fee
    } else {
        &&& min <= a <= max_share(cur, rem, fee, keep)
        &&& (min < max_share(cur, rem, fee, keep) ==> a < max_share(cur, rem, fee, keep))
    }
}

/// Every step of `amounts` was planned by the random rule, starting from
/// `source` with `n` recipients.
pub open spec fn random_prefix_ok(
    amounts: Seq<u128>,
    source: int,
    n: int,
    min: int,
    fee: int,
    keep: int,
) -> bool
    decreases amounts.len(),
{
    if amounts.len() == 0 {
        true
    } else {
        let before = amounts.drop_last();
        let cur = running_balance(source, before, fee);
        let rem = n - before.len();
        &&& random_prefix_ok(before, source, n, min, fee, keep)
        &&& rem >= 1
        &&& !random_stops(cur, rem, min, fee, keep)
        &&& random_step_ok(amounts.last() as int, cur, rem, min, fee, keep)
    }
}

/// A complete random plan: every step follows the rule, and the plan ends
/// either with every recipient served or at a step where the rule stops.
pub open spec fn random_plan(
    amounts: Seq<u128>,
    source: int,
    n: int,
    min: int,
    fee: int,
    keep: int,
) -> bool {
    &&& random_prefix_ok(amounts, source, n, min, fee, keep)
    &&& amounts.len() <= n
    &&& (amounts.len() < n ==> random_stops(
        running_balance(source, amounts, fee),
        n - amounts.len(),
        min,
        fee,
        keep,
    ))
}

/// The size of the range that a random step draws from, or 0 where nothing
/// is drawn (the step stops, or it is the final one).
pub open spec fn draw_span(cur: int, rem: int, min: int, fee: int, keep: int) -> int {
    if random_stops(cur, rem, min, fee, keep) || rem == 1 {
        0
    } else {
        max_share(cur, rem, fee, keep) - min
    }
}

/// The outcome of one random step.
pub enum RandomStep {
    /// The plan ends here.
    Stop,
    /// This recipient gets the amount.
    Send(u128),
}

/// The amount of a random step with the random value `draw`.
pub open spec fn step_amount(cur: int, rem: int, min: int, fee: int, keep: int, draw: int) -> int {
    if rem == 1 {
        cur - keep - fee
    } else if draw_span(cur, rem, min, fee, keep) > 0 {
        min + draw % draw_span(cur, rem, min, fee, keep)
    } else {
        min
    }
}

proof fn lemma_share_bounds(cur: int, rem: int, fee: int, keep: int)
    requires
        rem >= 1,
        cur - keep - fee * rem >= 0,
    ensures
        0 <= max_share(cur, rem, fee, keep) <= cur - keep - fee * rem,
{
    let x = cur - keep - fee * rem;
    assert(0 <= x / rem <= x) by (nonlinear_arith)
        requires
            x >= 0,
            rem >= 1,
    ;
}

/// The bounds of the random step at `current_balance` with `remaining`
/// recipients left: `None` where the rule stops, otherwise the smallest
/// amount and the size of the range that is drawn above it (0 for the final
/// recipient, whose amount is fixed).
pub fn random_step_bounds(
    current_balance: u128,
    remaining: u64,
    min_transfer_amount: u128,
    tx_fee: u128,
    remaining_balance_wei: u128,
) -> (r: Option<(u128, u128)>)
    requires
        remaining >= 1,
    ensures
        ({
            let cur = current_balance as int;
            let rem = remaining as int;
            let min = min_transfer_amount as int;
            let fee = tx_fee as int;
            let keep = remaining_balance_wei as int;
            match r {
                None => random_stops(cur, rem, min, fee, keep),
                Some((lo, span)) => {
                    &&& !random_stops(cur, rem, min, fee, keep)
                    &&& span == draw_span(cur, rem, min, fee, keep)
                    &&& rem == 1 ==> lo == cur - keep - fee
                    &&& rem > 1 ==> lo == min
                    &&& lo + span + fee <= cur
                    &&& rem > 1 ==> lo + span == max_share(cur, rem, fee, keep)
                },
            }
        }),
{
    let ghost cur = current_balance as int;
    let ghost rem = remaining as int;
    let ghost min = min_transfer_amount as int;
    let ghost fee = tx_fee as int;
    let ghost keep = remaining_balance_wei as int;
    let rem128 = remaining as u128;
    let reserve = match tx_fee.checked_mul(rem128) {
        None => {
            return None;
        },
        Some(v) => v,
    };
    let must_keep = match reserve.checked_add(remaining_balance_wei) {
        None => {
            return None;
        },
        Some(v) => v,
    };
    let threshold = match must_keep.checked_add(min_transfer_amount) {
        None => {
            return None;
        },
        Some(v) => v,
    };
    if current_balance <= threshold {
        return None;
    }
    let available = current_balance - must_keep;
    if remaining == 1 {
        assert(fee * rem == fee) by (nonlinear_arith)
            requires
                rem == 1,
        ;
        return Some((current_balance - remaining_balance_wei - tx_fee, 0));
    }
    proof {
        lemma_share_bounds(cur, rem, fee, keep);
    }
    let share = available / rem128;
    if share < min_transfer_amount {
        return None;
    }
    assert(fee <= fee * rem) by (nonlinear_arith)
        requires
            fee >= 0,
            rem >= 1,
    ;
    Some((min_transfer_amount, share - min_transfer_amount))
}

/// One step of the random rule with the random value `draw`: stop, or the
/// amount for this recipient.
pub fn random_split_step(
    current_balance: u128,
    remaining: u64,
    min_transfer_amount: u128,
    tx_fee: u128,
    remaining_balance_wei: u128,
    draw: u128,
) -> (r: RandomStep)
    requires
        remaining >= 1,
    ensures
        ({
            let cur = current_balance as int;
            let rem = remaining as int;
            let min = min_transfer_amount as int;
            let fee = tx_fee as int;
            let keep = remaining_balance_wei as int;
            match r {
                RandomStep::Stop => random_stops(cur, rem, min, fee, keep),
                RandomStep::Send(a) => {
                    &&& !random_stops(cur, rem, min, fee, keep)
                    &&& a == step_amount(cur, rem, min, fee, keep, draw as int)
                    &&& random_step_ok(a as int, cur, rem, min, fee, keep)
                    &&& a + fee <= cur
                },
            }
        }),
{
    match random_step_bounds(
        current_balance,
        remaining,
        min_transfer_amount,
        tx_fee,
        remaining_balance_wei,
    ) {
        None => RandomStep::Stop,
        Some((lo, span)) => {
            if span > 0 {
                RandomStep::Send(lo + draw % span)
            } else {
                RandomStep::Send(lo)
            }
        },
    }
}

/// Relies on rand's `thread_rng().gen_range(0..bound)`: a value below
/// `bound`, which must not be zero.
#[verifier::external_body]
pub(crate) fn random_below(bound: u128) -> (r: u128)
    requires
        bound > 0,
    ensures
        r < bound,
{
    rand::thread_rng().gen_range(0..bound)
}

/// `base`, then `sep`, then the decimal rendering of `n`.
pub fn indexed_name(base: &str, sep: &str, n: u128) -> (r: String)
    ensures
        r@ == base@ + sep@ + decimal(n as nat),
{
    let mut r = String::from_str(base);
    r.append(sep);
    push_decimal(&mut r, n);
    r
}

/// The transfer at position `j` goes to recipient `j` with the given gas
/// settings and a name made of the operation name and the recipient's index.
pub open spec fn random_tx_shape(
    t: PendingTransaction,
    receiver: AccountInfo,
    gas_limit: u64,
    gas_price: u128,
    operation_name: Seq<char>,
) -> bool {
    &&& t.to == receiver.address
    &&& t.gas_limit == gas_limit
    &&& t.gas_price == gas_price
    &&& t.operation_name@ == operation_name + "_to_"@ + decimal(receiver.index as nat)
}

/// Plans random transfers to `receivers`, in order. Each recipient but the
/// last gets a random amount between the minimum and an even share of what
/// is left above the reserve and the fees still owed; the last gets exactly
/// what is left above the reserve and its own fee. Planning stops early,
/// with the transfers planned so far, where the rule says so.
pub fn prepare_random_transactions(
    receivers: &Vec<AccountInfo>,
    source_balance: u128,
    min_transfer_amount: u128,
    tx_fee: u128,
    gas_limit: u64,
    gas_price: u128,
    operation_name: &str,
    remaining_balance_wei: u128,
) -> (r: Vec<PendingTransaction>)
    ensures
        random_plan(
            amounts_of(r@),
            source_balance as int,
            receivers.len() as int,
            min_transfer_amount as int,
            tx_fee as int,
            remaining_balance_wei as int,
        ),
        forall|j: int|
            0 <= j < r.len() ==> random_tx_shape(
                #[trigger] r@[j],
                receivers@[j],
                gas_limit,
                gas_price,
                operation_name@,
            ),
{
    let ghost source = source_balance as int;
    let ghost n = receivers.len() as int;
    let ghost min = min_transfer_amount as int;
    let ghost fee = tx_fee as int;
    let ghost keep = remaining_balance_wei as int;
    let mut transactions: Vec<PendingTransaction> = Vec::new();
    let mut current_balance: u128 = source_balance;
    let mut stopped = false;
    let mut i: usize = 0;
    while i < receivers.len() && !stopped
        invariant
            i <= receivers.len(),
            transactions.len() == i,
            n == receivers.len(),
            source == source_balance,
            min == min_transfer_amount,
            fee == tx_fee,
            keep == remaining_balance_wei,
            current_balance == running_balance(source, amounts_of(transactions@), fee),
            random_prefix_ok(amounts_of(transactions@), source, n, min, fee, keep),
            stopped ==> random_stops(current_balance as int, n - i, min, fee, keep),
            forall|j: int|
                0 <= j < i ==> random_tx_shape(
                    #[trigger] transactions@[j],
                    receivers@[j],
                    gas_limit,
                    gas_price,
                    operation_name@,
                ),
        decreases receivers.len() - i, (if stopped { 0int } else { 1int }),
    {
        let remaining = (receivers.len() - i) as u64;
        match random_step_bounds(
            current_balance,
            remaining,
            min_transfer_amount,
            tx_fee,
            remaining_balance_wei,
        ) {
            None => {
                stopped = true;
            },
            Some((_lo, span)) => {
                let draw = if span > 0 {
                    random_below(span)
                } else {
                    0
                };
                let step = random_split_step(
                    current_balance,
                    remaining,
                    min_transfer_amount,
                    tx_fee,
                    remaining_balance_wei,
                    draw,
                );
                match step {
                    RandomStep::Stop => {
                        stopped = true;
                    },
                    RandomStep::Send(amount) => {
                        let receiver = &receivers[i];
                        let name = indexed_name(operation_name, "_to_", receiver.index as u128);
                        let tx = PendingTransaction {
                            to: receiver.address,
                            value: amount,
                            gas_limit,
                            gas_price,
                            operation_name: name,
                        };
                        let ghost before = amounts_of(transactions@);
                        transactions.push(tx);
                        proof {
                            assert(amounts_of(transactions@).drop_last() =~= before);
                            assert(amounts_of(transactions@).last() == amount);
                        }
                        current_balance = current_balance - (amount + tx_fee);
                        i = i + 1;
                    },
                }
            },
        }
    }
    transactions
}

/// The sum of the amounts of a plan.
pub open spec fn sum_amounts(amounts: Seq<u128>) -> int
    decreases amounts.len(),
{
    if amounts.len() == 0 {
        0
    } else {
        sum_amounts(amounts.drop_last()) + amounts.last()
    }
}

proof fn lemma_total_sent_split(amounts: Seq<u128>, fee: int)
    ensures
        total_sent(amounts, fee) == sum_amounts(amounts) + amounts.len() * fee,
    decreases amounts.len(),
{
    if amounts.len() > 0 {
        lemma_total_sent_split(amounts.drop_last(), fee);
        assert(amounts.len() * fee == (amounts.len() - 1) * fee + fee) by (nonlinear_arith);
    }
}

proof fn lemma_random_prefix_reserve(
    amounts: Seq<u128>,
    source: int,
    n: int,
    min: int,
    fee: int,
    keep: int,
)
    requires
        random_prefix_ok(amounts, source, n, min, fee, keep),
        amounts.len() > 0,
        fee >= 0,
        min >= 0,
    ensures
        running_balance(source, amounts, fee) >= keep + fee * (n - amounts.len()),
{
    let before = amounts.drop_last();
    let cur = running_balance(source, before, fee);
    let rem = n - before.len();
    let a = amounts.last() as int;
    assert(running_balance(source, amounts, fee) == cur - a - fee);
    assert(!random_stops(cur, rem, min, fee, keep));
    assert(random_step_ok(a, cur, rem, min, fee, keep));
    assert(n - amounts.len() == rem - 1);
    if rem > 1 {
        lemma_share_bounds(cur, rem, fee, keep);
        assert(fee * rem - fee == fee * (rem - 1)) by (nonlinear_arith);
    } else {
        assert(fee * (rem - 1) == 0) by (nonlinear_arith)
            requires
                rem == 1,
        ;
    }
}

/// Every accepted random plan stays within the source balance: the sum of
/// its amounts, the reserved balance and one fee per transfer together do
/// not exceed what the source held.
pub proof fn lemma_random_plan_within_balance(
    amounts: Seq<u128>,
    source_balance: u128,
    n: nat,
    min_transfer_amount: u128,
    tx_fee: u128,
    remaining_balance_wei: u128,
)
    requires
        remaining_balance_wei < source_balance,
        random_plan(
            amounts,
            source_balance as int,
            n as int,
            min_transfer_amount as int,
            tx_fee as int,
            remaining_balance_wei as int,
        ),
    ensures
        sum_amounts(amounts) + remaining_balance_wei + amounts.len() * tx_fee <= source_balance,
{
    lemma_total_sent_split(amounts, tx_fee as int);
    if amounts.len() > 0 {
        lemma_random_prefix_reserve(
            amounts,
            source_balance as int,
            n as int,
            min_transfer_amount as int,
            tx_fee as int,
            remaining_balance_wei as int,
        );
        assert(tx_fee * (n - amounts.len()) >= 0) by (nonlinear_arith)
            requires
                n >= amounts.len(),
                tx_fee >= 0,
        ;
    }
}

/// In a random plan that serves every recipient, the last amount is not
/// drawn: it is exactly the running balance before it, less the reserved
/// balance and its own fee.
pub proof fn lemma_random_last_amount_exact(
    amounts: Seq<u128>,
    source_balance: u128,
    n: nat,
    min_transfer_amount: u128,
    tx_fee: u128,
    remaining_balance_wei: u128,
)
    requires
        n >= 1,
        amounts.len() == n,
        random_plan(
            amounts,
            source_balance as int,
            n as int,
            min_transfer_amount as int,
            tx_fee as int,
            remaining_balance_wei as int,
        ),
    ensures
        amounts.last() == running_balance(source_balance as int, amounts.drop_last(), tx_fee as int)
            - remaining_balance_wei - tx_fee,
{
}

/// Why a split cannot be planned.
pub enum SplitError {
    /// There is nobody to send to.
    NoRecipients,
    /// The reserved balance is not below the source balance.
    RemainingBalanceTooHigh { remaining: u128, balance: u128 },
    /// After the reserve and the fees of every transfer, less than one
    /// minimum transfer per recipient is left.
    BalanceTooLow { available: u128, required: u128 },
    /// The source cannot cover the reserve and the fees of an equal split.
    BalanceTooLowForEqualSplit,
    /// The equal share is below the minimum transfer.
    ShareBelowMinimum { share: u128, minimum: u128 },
    /// Fewer recipients than asked for.
    NotEnoughRecipients { found: u64, needed: u64 },
    /// A recipient address does not parse.
    InvalidAddress { address: String },
    /// The plan came out empty.
    NoValidTransactions,
    /// A fee or an amount does not fit in 128 bits.
    AmountOverflow,
}

/// What each recipient of an equal split gets: an even share of what is
/// left above the reserve and the fees, rounded down.
pub open spec fn equal_share(source: int, n: int, fee: int, keep: int) -> int {
    (source - keep - fee * n) / n
}

/// Plans an equal split: every recipient gets the same share, and the
/// remainder of the division stays on the source.
pub fn prepare_equal_transactions(
    receivers: &Vec<AccountInfo>,
    source_balance: u128,
    min_transfer_amount: u128,
    tx_fee: u128,
    gas_limit: u64,
    gas_price: u128,
    operation_name: &str,
    remaining_balance_wei: u128,
) -> (r: Result<Vec<PendingTransaction>, SplitError>)
    ensures
        ({
            let source = source_balance as int;
            let n = receivers.len() as int;
            let fee = tx_fee as int;
            let keep = remaining_balance_wei as int;
            match r {
                Err(SplitError::NoRecipients) => n == 0,
                Err(SplitError::BalanceTooLowForEqualSplit) => n > 0 && source <= keep + fee * n,
                Err(SplitError::ShareBelowMinimum { share, minimum }) => {
                    &&& n > 0
                    &&& source > keep + fee * n
                    &&& share == equal_share(source, n, fee, keep)
                    &&& minimum == min_transfer_amount
                    &&& share < minimum
                },
                Err(_) => false,
                Ok(txs) => {
                    &&& n > 0
                    &&& source > keep + fee * n
                    &&& equal_share(source, n, fee, keep) >= min_transfer_amount
                    &&& txs.len() == n
                    &&& forall|j: int|
                        0 <= j < n ==> {
                            &&& (#[trigger] txs@[j]).value == equal_share(source, n, fee, keep)
                            &&& txs@[j].to == receivers@[j].address
                            &&& txs@[j].gas_limit == gas_limit
                            &&& txs@[j].gas_price == gas_price
                            &&& txs@[j].operation_name@ == operation_name@ + "_equal_"@
                                + decimal(j as nat)
                        }
                },
            }
        }),
{
    let ghost source = source_balance as int;
    let ghost n = receivers.len() as int;
    let ghost fee = tx_fee as int;
    let ghost keep = remaining_balance_wei as int;
    if receivers.len() == 0 {
        return Err(SplitError::NoRecipients);
    }
    let count = receivers.len() as u128;
    let fees = match tx_fee.checked_mul(count) {
        None => {
            return Err(SplitError::BalanceTooLowForEqualSplit);
        },
        Some(v) => v,
    };
    let reserved = match fees.checked_add(remaining_balance_wei) {
        None => {
            return Err(SplitError::BalanceTooLowForEqualSplit);
        },
        Some(v) => v,
    };
    if source_balance <= reserved {
        return Err(SplitError::BalanceTooLowForEqualSplit);
    }
    let distributable = source_balance - remaining_balance_wei - fees;
    let share = distributable / count;
    if share < min_transfer_amount {
        return Err(SplitError::ShareBelowMinimum { share, minimum: min_transfer_amount });
    }
    let mut transactions: Vec<PendingTransaction> = Vec::new();
    let mut i: usize = 0;
    while i < receivers.len()
        invariant
            i <= receivers.len(),
            transactions.len() == i,
            n == receivers.len(),
            share == equal_share(source, n, fee, keep),
            forall|j: int|
                0 <= j < i ==> {
                    &&& (#[trigger] transactions@[j]).value == share
                    &&& transactions@[j].to == receivers@[j].address
                    &&& transactions@[j].gas_limit == gas_limit
                    &&& transactions@[j].gas_price == gas_price
                    &&& transactions@[j].operation_name@ == operation_name@ + "_equal_"@
                        + decimal(j as nat)
                },
        decreases receivers.len() - i,
    {
        let name = indexed_name(operation_name, "_equal_", i as u128);
        transactions.push(
            PendingTransaction {
                to: receivers[i].address,
                value: share,
                gas_limit,
                gas_price,
                operation_name: name,
            },
        );
        i = i + 1;
    }
    Ok(transactions)
}

proof fn lemma_sum_constant(amounts: Seq<u128>, share: int)
    requires
        forall|j: int| 0 <= j < amounts.len() ==> amounts[j] == share,
    ensures
        sum_amounts(amounts) == amounts.len() * share,
    decreases amounts.len(),
{
    if amounts.len() > 0 {
        let before = amounts.drop_last();
        assert forall|j: int| 0 <= j < before.len() implies before[j] == share by {
            assert(before[j] == amounts[j]);
        }
        lemma_sum_constant(before, share);
        assert(amounts.len() * share == (amounts.len() - 1) * share + share) by (nonlinear_arith);
    }
}

/// An equal plan gives every recipient the same share, and what the division
/// leaves over stays on the source: the source balance is exactly the
/// amounts, the fees, the reserved balance and a remainder smaller than the
/// number of recipients. So the plan never spends more than the source holds.
pub proof fn lemma_equal_plan_remainder_kept(
    amounts: Seq<u128>,
    source_balance: u128,
    tx_fee: u128,
    remaining_balance_wei: u128,
)
    requires
        amounts.len() > 0,
        source_balance > remaining_balance_wei + tx_fee * amounts.len(),
        forall|j: int|
            0 <= j < amounts.len() ==> amounts[j] == equal_share(
                source_balance as int,
                amounts.len() as int,
                tx_fee as int,
                remaining_balance_wei as int,
            ),
    ensures
        forall|j: int, k: int| 0 <= j < amounts.len() && 0 <= k < amounts.len() ==> amounts[j] == amounts[k],
        ({
            let n = amounts.len() as int;
            let distributable = source_balance - remaining_balance_wei - tx_fee * n;
            &&& source_balance == sum_amounts(amounts) + remaining_balance_wei + n * tx_fee
                + distributable % n
            &&& 0 <= distributable % n < n
            &&& sum_amounts(amounts) + remaining_balance_wei + n * tx_fee <= source_balance
        }),
{
    let n = amounts.len() as int;
    let d = source_balance - remaining_balance_wei - tx_fee * n;
    let share = equal_share(source_balance as int, n, tx_fee as int, remaining_balance_wei as int);
    lemma_sum_constant(amounts, share);
    assert(d == n * (d / n) + d % n && 0 <= d % n < n) by (nonlinear_arith)
        requires
            n > 0,
            d > 0,
    ;
    assert(tx_fee * n == n * tx_fee) by (nonlinear_arith);
}

/// How the source balance is divided.
pub enum SplitMode {
    /// Random amounts; the last recipient gets the exact rest.
    Random,
    /// The same amount for everyone.
    Equal,
}

/// The operation name of a split mode.
pub open spec fn mode_label(mode: SplitMode) -> Seq<char> {
    match mode {
        SplitMode::Random => "SplitFundsRandom"@,
        SplitMode::Equal => "SplitFundsEqual"@,
    }
}

impl SplitMode {
    /// The operation name used in transfer names and descriptions.
    pub fn label(&self) -> (r: &'static str)
        ensures
            r@ == mode_label(*self),
    {
        match self {
            SplitMode::Random => "SplitFundsRandom",
            SplitMode::Equal => "SplitFundsEqual",
        }
    }
}

/// Progress of the preparation of a split, for a foreground poller.
pub enum PrepareProgress {
    /// Re-checking addresses that an earlier scan found empty.
    CheckingPreFound { current: usize, total: usize, found_empty: usize },
    /// Scanning further indices for empty addresses.
    ScanningIndex { index: u32, found_empty: usize, needed: u32 },
    /// Building the transfers.
    BuildingTransactions { current: usize, total: usize },
    /// Done.
    Complete { total_transactions: usize },
}

/// The gas of a plain transfer.
pub const TRANSFER_GAS_LIMIT: u64 = 21000;

/// Gas settings of a split, all in wei.
pub struct SplitFees {
    /// The oracle price scaled by the speed multiplier.
    pub effective_gas_price: u128,
    /// The fee of one transfer at the effective price.
    pub tx_fee: u128,
    /// Five times the fee of one transfer at the oracle price.
    pub min_transfer_amount: u128,
}

/// The gas price scaled by a speed multiplier in hundredths.
pub open spec fn effective_price(gas_price: int, speed_bp: int) -> int {
    gas_price * speed_bp / 100
}

/// The fees fit in 128 bits.
pub open spec fn fees_fit(gas_price: int, speed_bp: int) -> bool {
    &&& gas_price * speed_bp <= u128::MAX
    &&& effective_price(gas_price, speed_bp) * 21000 <= u128::MAX
    &&& gas_price * 105000 <= u128::MAX
}

/// Computes the fee of one transfer and the minimum transfer from the oracle
/// gas price and a speed multiplier in hundredths (150 for 1.5x).
pub fn split_fees(gas_price: u128, gas_speed_bp: u64) -> (r: Option<SplitFees>)
    ensures
        r is Some <==> fees_fit(gas_price as int, gas_speed_bp as int),
        r matches Some(f) ==> {
            &&& f.effective_gas_price == effective_price(gas_price as int, gas_speed_bp as int)
            &&& f.tx_fee == f.effective_gas_price * 21000
            &&& f.min_transfer_amount == gas_price * 21000 * 5
        },
{
    let scaled = match gas_price.checked_mul(gas_speed_bp as u128) {
        None => {
            return None;
        },
        Some(v) => v,
    };
    let effective_gas_price = scaled / 100;
    let tx_fee = match effective_gas_price.checked_mul(TRANSFER_GAS_LIMIT as u128) {
        None => {
            return None;
        },
        Some(v) => v,
    };
    let min_transfer_amount = match gas_price.checked_mul(105000) {
        None => {
            return None;
        },
        Some(v) => v,
    };
    assert(gas_price * 21000 * 5 == gas_price * 105000) by (nonlinear_arith);
    Some(SplitFees { effective_gas_price, tx_fee, min_transfer_amount })
}

/// The inputs of a split pass the checks made before any amount is planned:
/// enough recipients, fees that fit, a reserve below the balance, and at
/// least one minimum transfer per recipient after the reserve and the fees.
pub open spec fn split_prechecks_pass(
    n_receivers: int,
    output_count: int,
    source: int,
    gas_price: int,
    speed_bp: int,
    keep: int,
) -> bool {
    &&& n_receivers >= output_count
    &&& fees_fit(gas_price, speed_bp)
    &&& keep < source
    &&& source - keep - effective_price(gas_price, speed_bp) * 21000 * output_count
        >= gas_price * 105000 * output_count
}

/// The description of the transfer at position `j` of a split.
pub open spec fn split_description(mode: SplitMode, j: int, value: u128) -> Seq<char> {
    mode_label(mode) + " #"@ + decimal((j + 1) as nat) + ": "@ + ether_text(value as nat)
        + " ETH"@
}

/// The destination label of a recipient: its derivation path and address.
pub open spec fn destination_label(receiver: AccountInfo) -> Seq<char> {
    receiver.derivation_path@ + " \u{2192} "@ + "0x"@ + hex_of(receiver.address@)
}

/// The transfers of a prepared split.
pub open spec fn planned_txs(list: Seq<(PendingTransaction, String, String)>) -> Seq<
    PendingTransaction,
> {
    list.map_values(|e: (PendingTransaction, String, String)| e.0)
}

/// Plans a split of `source_balance` over the first `output_count` of
/// `receivers` and labels each transfer. The gas price is the oracle's, the
/// speed multiplier is in hundredths, and `remaining_balance_wei` stays on
/// the source.
pub fn plan_split(
    mode: SplitMode,
    receivers: &Vec<AccountInfo>,
    output_count: u32,
    source_balance: u128,
    gas_price: u128,
    gas_speed_bp: u64,
    remaining_balance_wei: u128,
) -> (r: Result<Vec<(PendingTransaction, String, String)>, SplitError>)
    ensures
        ({
            let len = receivers.len() as int;
            let n = output_count as int;
            let source = source_balance as int;
            let keep = remaining_balance_wei as int;
            let pass = split_prechecks_pass(len, n, source, gas_price as int, gas_speed_bp as int, keep);
            let fee = effective_price(gas_price as int, gas_speed_bp as int) * 21000;
            let min = gas_price * 105000;
            match r {
                Err(SplitError::NotEnoughRecipients { found, needed }) => {
                    &&& len < n
                    &&& found == len
                    &&& needed == n
                },
                Err(SplitError::AmountOverflow) => len >= n && !fees_fit(gas_price as int, gas_speed_bp as int),
                Err(SplitError::RemainingBalanceTooHigh { remaining, balance }) => {
                    &&& len >= n
                    &&& fees_fit(gas_price as int, gas_speed_bp as int)
                    &&& keep >= source
                    &&& remaining == keep
                    &&& balance == source
                },
                Err(SplitError::BalanceTooLow { available, required }) => {
                    &&& len >= n
                    &&& fees_fit(gas_price as int, gas_speed_bp as int)
                    &&& keep < source
                    &&& !pass
                    &&& available == if fee * n <= source - keep {
                        source - keep - fee * n
                    } else {
                        0
                    }
                    &&& required == if min * n <= u128::MAX {
                        min * n
                    } else {
                        u128::MAX as int
                    }
                },
                Err(SplitError::NoRecipients) => pass && mode is Equal && n == 0,
                Err(SplitError::BalanceTooLowForEqualSplit) => pass && mode is Equal && n > 0
                    && source <= keep + fee * n,
                Err(SplitError::ShareBelowMinimum { share, minimum }) => {
                    &&& pass
                    &&& mode is Equal
                    &&& n > 0
                    &&& source > keep + fee * n
                    &&& share == equal_share(source, n, fee, keep)
                    &&& minimum == min
                    &&& share < minimum
                },
                Err(SplitError::NoValidTransactions) => pass && mode is Random && random_stops(
                    source,
                    n,
                    min,
                    fee,
                    keep,
                ) || pass && n == 0 && mode is Random,
                Err(_) => false,
                Ok(list) => {
                    &&& pass
                    &&& list.len() > 0
                    &&& mode is Random ==> random_plan(
                        amounts_of(planned_txs(list@)),
                        source,
                        n,
                        min,
                        fee,
                        keep,
                    )
                    &&& mode is Random ==> forall|j: int|
                        0 <= j < list.len() ==> random_tx_shape(
                            #[trigger] list@[j].0,
                            receivers@[j],
                            TRANSFER_GAS_LIMIT,
                            effective_price(gas_price as int, gas_speed_bp as int) as u128,
                            mode_label(mode),
                        )
                    &&& mode is Equal ==> {
                        &&& list.len() == n
                        &&& source > keep + fee * n
                        &&& equal_share(source, n, fee, keep) >= min
                        &&& forall|j: int|
                            0 <= j < n ==> {
                                &&& (#[trigger] list@[j]).0.value == equal_share(source, n, fee, keep)
                                &&& list@[j].0.to == receivers@[j].address
                                &&& list@[j].0.gas_limit == TRANSFER_GAS_LIMIT
                                &&& list@[j].0.gas_price == effective_price(
                                    gas_price as int,
                                    gas_speed_bp as int,
                                )
                                &&& list@[j].0.operation_name@ == mode_label(mode) + "_equal_"@
                                    + decimal(j as nat)
                            }
                    }
                    &&& forall|j: int|
                        0 <= j < list.len() ==> {
                            &&& (#[trigger] list@[j]).1@ == split_description(mode, j, list@[j].0.value)
                            &&& list@[j].2@ == destination_label(receivers@[j])
                        }
                },
            }
        }),
{
    let ghost len = receivers.len() as int;
    let ghost n = output_count as int;
    let ghost source = source_balance as int;
    let ghost keep = remaining_balance_wei as int;
    if receivers.len() < output_count as usize {
        return Err(
            SplitError::NotEnoughRecipients {
                found: receivers.len() as u64,
                needed: output_count as u64,
            },
        );
    }
    let fees = match split_fees(gas_price, gas_speed_bp) {
        None => {
            return Err(SplitError::AmountOverflow);
        },
        Some(f) => f,
    };
    let ghost fee = fees.tx_fee as int;
    let ghost min = fees.min_transfer_amount as int;
    assert(min == gas_price * 105000) by (nonlinear_arith)
        requires
            min == gas_price * 21000 * 5,
    ;
    if remaining_balance_wei >= source_balance {
        return Err(
            SplitError::RemainingBalanceTooHigh {
                remaining: remaining_balance_wei,
                balance: source_balance,
            },
        );
    }
    let count = output_count as u128;
    let spendable = source_balance - remaining_balance_wei;
    let gas_total = fees.tx_fee.checked_mul(count);
    let needed = fees.min_transfer_amount.checked_mul(count);
    let enough = match (gas_total, needed) {
        (Some(g), Some(m)) => g <= spendable && spendable - g >= m,
        _ => false,
    };
    proof {
        assert(fee * n >= 0 && min * n >= 0) by (nonlinear_arith)
            requires
                fee >= 0,
                min >= 0,
                n >= 0,
        ;
    }
    if !enough {
        let available = match gas_total {
            Some(g) => if g <= spendable {
                spendable - g
            } else {
                0
            },
            None => 0,
        };
        let needed_amount = match needed {
            Some(m) => m,
            None => u128::MAX,
        };
        return Err(SplitError::BalanceTooLow { available, required: needed_amount });
    }
    let mut chosen: Vec<AccountInfo> = Vec::new();
    let mut k: usize = 0;
    while k < output_count as usize
        invariant
            k <= output_count,
            output_count <= receivers.len(),
            chosen.len() == k,
            forall|j: int| 0 <= j < k ==> #[trigger] chosen@[j] == receivers@[j],
        decreases output_count - k,
    {
        chosen.push(receivers[k].clone());
        k = k + 1;
    }
    let label = mode.label();
    let transactions = match mode {
        SplitMode::Random => prepare_random_transactions(
            &chosen,
            source_balance,
            fees.min_transfer_amount,
            fees.tx_fee,
            TRANSFER_GAS_LIMIT,
            fees.effective_gas_price,
            label,
            remaining_balance_wei,
        ),
        SplitMode::Equal => {
            match prepare_equal_transactions(
                &chosen,
                source_balance,
                fees.min_transfer_amount,
                fees.tx_fee,
                TRANSFER_GAS_LIMIT,
                fees.effective_gas_price,
                label,
                remaining_balance_wei,
            ) {
                Ok(txs) => txs,
                Err(e) => {
                    return Err(e);
                },
            }
        },
    };
    if transactions.len() == 0 {
        proof {
            if mode is Random && n > 0 {
                assert(amounts_of(transactions@).len() == 0);
                assert(running_balance(source, amounts_of(transactions@), fee) == source);
            }
        }
        return Err(SplitError::NoValidTransactions);
    }
    let mut list: Vec<(PendingTransaction, String, String)> = Vec::new();
    let mut idx: usize = 0;
    while idx < transactions.len()
        invariant
            idx <= transactions.len(),
            transactions.len() <= chosen.len(),
            chosen.len() == output_count,
            output_count <= receivers.len(),
            forall|j: int| 0 <= j < chosen.len() ==> #[trigger] chosen@[j] == receivers@[j],
            list.len() == idx,
            label@ == mode_label(mode),
            forall|j: int| 0 <= j < idx ==> #[trigger] list@[j].0 == transactions@[j],
            forall|j: int|
                0 <= j < idx ==> {
                    &&& (#[trigger] list@[j]).1@ == split_description(mode, j, list@[j].0.value)
                    &&& list@[j].2@ == destination_label(receivers@[j])
                },
        decreases transactions.len() - idx,
    {
        let tx = transactions[idx].clone();
        let receiver = &chosen[idx];
        let mut description = String::from_str(label);
        description.append(" #");
        push_decimal(&mut description, (idx as u128) + 1);
        description.append(": ");
        let ether = format_ether(tx.value);
        description.append(ether.as_str());
        description.append(" ETH");
        let mut destination = receiver.derivation_path.clone();
        destination.append(" \u{2192} ");
        let addr = address_text(&receiver.address);
        destination.append(addr.as_str());
        proof {
            assert(destination@ =~= destination_label(receivers@[idx as int]));
            assert(description@ =~= split_description(mode, idx as int, tx.value));
        }
        list.push((tx, description, destination));
        idx = idx + 1;
    }
    proof {
        assert(planned_txs(list@) =~= transactions@);
    }
    Ok(list)
}

} // verus!
