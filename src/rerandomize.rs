//! Drawing fresh random amounts for the transfers of a random split that
//! are still pending, from the balance the source has left.

use vstd::prelude::*;
use crate::queue::{count_status, QueuedTransaction, TransactionQueue, TransactionStatus};
use crate::split::{random_below, sum_amounts};

verus! {

/// The gas limit assumed for each remaining transfer when amounts are drawn
/// again.
pub const REDRAW_GAS_LIMIT: u64 = 25000;

/// Some transaction has been sent or skipped already.
pub open spec fn any_processed(txs: Seq<QueuedTransaction>) -> bool {
    exists|i: int| 0 <= i < txs.len() && (#[trigger] txs[i].status is Success || txs[i].status is Skipped)
}

/// True when a transaction of `txs` succeeded or was skipped; amounts are
/// then no longer drawn again.
pub fn has_processed_transactions(txs: &Vec<QueuedTransaction>) -> (r: bool)
    ensures
        r == any_processed(txs@),
{
    let mut i: usize = 0;
    while i < txs.len()
        invariant
            i <= txs.len(),
            forall|j: int| 0 <= j < i ==> !(#[trigger] txs@[j].status is Success || txs@[j].status is Skipped),
        decreases txs.len() - i,
    {
        match txs[i].status {
            TransactionStatus::Success { .. } | TransactionStatus::Skipped => {
                return true;
            },
            _ => {},
        }
        i = i + 1;
    }
    false
}

/// Splits `available` over `n` transfers at random, on top of `min` each:
/// every transfer but the last gets a random part below an even share of
/// what is left, and the last gets the rest. The amounts add up to
/// `available + n * min`.
pub fn redistribute_amounts(available: u128, min: u128, n: usize) -> (r: Vec<u128>)
    requires
        n >= 1,
        available + n * min <= u128::MAX,
    ensures
        r.len() == n,
        forall|j: int| 0 <= j < n ==> #[trigger] r@[j] >= min,
        sum_amounts(r@) == available + n * min,
{
    let mut amounts: Vec<u128> = Vec::new();
    let mut rest = available;
    let mut i: usize = 0;
    while i + 1 < n
        invariant
            i < n,
            amounts.len() == i,
            rest <= available,
            forall|j: int| 0 <= j < i ==> #[trigger] amounts@[j] >= min,
            sum_amounts(amounts@) + rest == available + i * min,
            available + n * min <= u128::MAX,
        decreases n - i,
    {
        let share = rest / ((n - i) as u128);
        let extra = if share > 0 {
            random_below(share)
        } else {
            0
        };
        proof {
            assert(share <= rest) by (nonlinear_arith)
                requires
                    share == (rest as int) / ((n - i) as int),
                    n - i >= 1,
                    rest >= 0,
            ;
            assert((i + 1) * min <= n * min) by (nonlinear_arith)
                requires
                    i + 1 <= n,
                    min >= 0,
            ;
            assert((i + 1) * min == i * min + min) by (nonlinear_arith);
        }
        let ghost before = amounts@;
        amounts.push(min + extra);
        proof {
            assert(amounts@.drop_last() =~= before);
        }
        rest = rest - extra;
        i = i + 1;
    }
    proof {
        assert(n * min == (n - 1) * min + min) by (nonlinear_arith);
    }
    let ghost before = amounts@;
    amounts.push(rest + min);
    proof {
        assert(amounts@.drop_last() =~= before);
    }
    amounts
}

/// New amounts can be drawn for the queue `txs`: nothing was sent or
/// skipped, something is pending, and after a reserve of two fees the
/// source covers the minimum (five fees) for each pending transfer, all in
/// 128 bits.
pub open spec fn redraw_possible(txs: Seq<QueuedTransaction>, source: int, gas_price: int) -> bool {
    let fee = gas_price * 25000;
    let min = fee * 5;
    let n = count_status(txs, 0) as int;
    let reserve = if fee * 2 > u128::MAX {
        u128::MAX as int
    } else {
        fee * 2
    };
    let remaining = if source > reserve {
        source - reserve
    } else {
        0
    };
    &&& !any_processed(txs)
    &&& n > 0
    &&& fee <= u128::MAX
    &&& min <= u128::MAX
    &&& min * n <= u128::MAX
    &&& remaining >= min * n
}

impl TransactionQueue {
    /// Draws new amounts for the pending transfers of a random split from
    /// what the source holds (`source_balance`) less a gas reserve of two
    /// transfers at `gas_price`. This is done only while no transfer was sent
    /// or skipped, something is pending, and the balance covers the minimum
    /// (five fees) for each pending transfer; otherwise nothing changes and
    /// `false` comes back. Only pending amounts change, and each new amount
    /// is at least the minimum.
    pub fn rerandomize_pending_amounts(&mut self, source_balance: u128, gas_price: u128) -> (r:
        bool)
        requires
            old(self).wf(),
        ensures
            final(self).wf(),
            final(self).delay_ms() == old(self).delay_ms(),
            final(self)@.len() == old(self)@.len(),
            r == redraw_possible(old(self)@, source_balance as int, gas_price as int),
            !r ==> final(self)@ == old(self)@,
            forall|i: int|
                0 <= i < old(self)@.len() ==> {
                    let a = #[trigger] old(self)@[i];
                    let b = final(self)@[i];
                    &&& b.id == a.id
                    &&& b.status == a.status
                    &&& b.description == a.description
                    &&& b.destination_label == a.destination_label
                    &&& b.transaction.to == a.transaction.to
                    &&& b.transaction.gas_limit == a.transaction.gas_limit
                    &&& b.transaction.gas_price == a.transaction.gas_price
                    &&& b.transaction.operation_name == a.transaction.operation_name
                    &&& !(a.status is Pending) ==> b.transaction.value == a.transaction.value
                    &&& r && a.status is Pending ==> b.transaction.value >= gas_price * 125000
                },
    {
        let txs = self.get_transactions();
        if has_processed_transactions(&txs) {
            return false;
        }
        let ids = self.pending_ids();
        let n = ids.len();
        if n == 0 {
            return false;
        }
        let tx_fee = match gas_price.checked_mul(REDRAW_GAS_LIMIT as u128) {
            Some(f) => f,
            None => {
                return false;
            },
        };
        let min = match tx_fee.checked_mul(5) {
            Some(m) => m,
            None => {
                return false;
            },
        };
        let reserve = match tx_fee.checked_mul(2) {
            Some(v) => v,
            None => u128::MAX,
        };
        let remaining = source_balance.saturating_sub(reserve);
        let total_min = match min.checked_mul(n as u128) {
            Some(t) => t,
            None => {
                assert(min * n > u128::MAX) by (nonlinear_arith)
                    requires
                        min * (n as u128) > u128::MAX,
                ;
                return false;
            },
        };
        if remaining < total_min {
            assert(total_min == min * n) by (nonlinear_arith)
                requires
                    total_min == min * (n as u128),
            ;
            return false;
        }
        let available = remaining - total_min;
        assert(total_min == n * min) by (nonlinear_arith)
            requires
                total_min == min * (n as u128),
        ;
        assert(min == gas_price * 125000) by (nonlinear_arith)
            requires
                min == tx_fee * 5,
                tx_fee == gas_price * 25000,
        ;
        let amounts = redistribute_amounts(available, min, n);
        let mut j: usize = 0;
        while j < n
            invariant
                j <= n,
                n == ids.len(),
                amounts.len() == n,
                self.wf(),
                self.delay_ms() == old(self).delay_ms(),
                self@.len() == old(self)@.len(),
                forall|q: int| 0 <= q < n ==> #[trigger] amounts@[q] >= min,
                min == gas_price * 125000,
                forall|q: int| 0 <= q < ids.len() ==> #[trigger] ids@[q] < old(self)@.len() && old(self)@[ids@[q] as int].status is Pending,
                forall|i: int|
                    0 <= i < old(self)@.len() ==> {
                        let a = #[trigger] old(self)@[i];
                        let b = self@[i];
                        &&& b.id == a.id
                        &&& b.status == a.status
                        &&& b.description == a.description
                        &&& b.destination_label == a.destination_label
                        &&& b.transaction.to == a.transaction.to
                        &&& b.transaction.gas_limit == a.transaction.gas_limit
                        &&& b.transaction.gas_price == a.transaction.gas_price
                        &&& b.transaction.operation_name == a.transaction.operation_name
                        &&& !(a.status is Pending) ==> b.transaction.value == a.transaction.value
                        &&& (a.status is Pending && (exists|q: int| 0 <= q < j && ids@[q] == i)) ==> b.transaction.value >= min
                    },
                forall|i: int| 0 <= i < old(self)@.len() && (#[trigger] old(self)@[i]).status is Pending ==> ids@.contains(i as usize),
            decreases n - j,
        {
            let id = ids[j];
            let ghost prev = self@;
            let _ = self.update_pending_transaction_value(id, amounts[j]);
            proof {
                assert forall|i: int| 0 <= i < old(self)@.len() implies {
                    let a = #[trigger] old(self)@[i];
                    let b = self@[i];
                    (a.status is Pending && (exists|q: int| 0 <= q < j + 1 && ids@[q] == i)) ==> b.transaction.value >= min
                } by {
                    let a = old(self)@[i];
                    if a.status is Pending && (exists|q: int| 0 <= q < j + 1 && ids@[q] == i) {
                        if i != id as int {
                            let q = choose|q: int| 0 <= q < j + 1 && ids@[q] == i;
                            assert(q < j);
                        }
                    }
                }
            }
            j = j + 1;
        }
        proof {
            assert forall|i: int| 0 <= i < old(self)@.len() && (#[trigger] old(self)@[i]).status is Pending implies self@[i].transaction.value >= min by {
                assert(ids@.contains(i as usize));
                let q = choose|q: int| 0 <= q < ids@.len() && ids@[q] == i as usize;
                assert(exists|q: int| 0 <= q < n && ids@[q] == i);
            }
        }
        true
    }
}

} // verus!
