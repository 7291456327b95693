//! An ordered queue of planned transfers with an explicit lifecycle:
//! `Pending -> InProgress -> Success | Failed`, `Pending -> Skipped`, and
//! `Failed { retryable: true } -> InProgress` for a manual retry.

use vstd::prelude::*;
use vstd::string::*;
use crate::manager::{TransactionResult, TxHash};
use crate::text::{decimal, push_decimal};
use crate::transaction::PendingTransaction;

verus! {

/// Where a queued transaction stands.
pub enum TransactionStatus {
    /// Waiting to be executed.
    Pending,
    /// Being signed and broadcast.
    InProgress,
    /// Broadcast.
    Success { tx_hash: TxHash, block_number: Option<u64>, gas_used: u64 },
    /// Signing or broadcasting failed.
    Failed { error: String, retryable: bool },
    /// Left out by the user.
    Skipped,
}

impl Clone for TransactionStatus {
    fn clone(&self) -> (r: Self)
        ensures
            r == *self,
    {
        match self {
            TransactionStatus::Pending => TransactionStatus::Pending,
            TransactionStatus::InProgress => TransactionStatus::InProgress,
            TransactionStatus::Success { tx_hash, block_number, gas_used } => {
                TransactionStatus::Success {
                    tx_hash: *tx_hash,
                    block_number: *block_number,
                    gas_used: *gas_used,
                }
            },
            TransactionStatus::Failed { error, retryable } => {
                TransactionStatus::Failed { error: error.clone(), retryable: *retryable }
            },
            TransactionStatus::Skipped => TransactionStatus::Skipped,
        }
    }
}

/// A transfer in the queue with its status and labels.
pub struct QueuedTransaction {
    /// Unique within the queue; equal to the position.
    pub id: usize,
    pub transaction: PendingTransaction,
    pub status: TransactionStatus,
    pub description: String,
    pub destination_label: String,
}

impl Clone for QueuedTransaction {
    fn clone(&self) -> (r: Self)
        ensures
            r == *self,
    {
        QueuedTransaction {
            id: self.id,
            transaction: self.transaction.clone(),
            status: self.status.clone(),
            description: self.description.clone(),
            destination_label: self.destination_label.clone(),
        }
    }
}

/// Why a queue operation was refused.
pub enum QueueError {
    /// No transaction has this id.
    NotFound,
    /// Only a pending transaction can change its amount.
    NotPending,
    /// Only a pending transaction or a retryable failure can be executed.
    NotExecutable,
    /// Only a pending transaction can be skipped.
    CannotSkip,
}

/// The delay between transactions of a batch when none is given.
pub const DEFAULT_TRANSACTION_DELAY_MS: u64 = 3000;

/// An ordered collection of queued transactions.
pub struct TransactionQueue {
    transactions: Vec<QueuedTransaction>,
    transaction_delay_ms: u64,
}

/// A status that may be executed.
pub open spec fn executable(s: TransactionStatus) -> bool {
    s is Pending || s matches TransactionStatus::Failed { retryable: true, .. }
}

/// The queue after transaction `id` took status `s`.
pub open spec fn with_status(txs: Seq<QueuedTransaction>, id: int, s: TransactionStatus) -> Seq<
    QueuedTransaction,
> {
    txs.update(id, QueuedTransaction { status: s, ..txs[id] })
}

impl View for TransactionQueue {
    type V = Seq<QueuedTransaction>;

    closed spec fn view(&self) -> Seq<QueuedTransaction> {
        self.transactions@
    }
}

impl TransactionQueue {
    /// Ids are the positions of the transactions.
    pub closed spec fn wf(&self) -> bool {
        forall|i: int| 0 <= i < self.transactions@.len() ==> #[trigger] self.transactions@[i].id == i
    }

    /// The delay between transactions of a batch, in milliseconds.
    pub closed spec fn delay_ms(&self) -> u64 {
        self.transaction_delay_ms
    }

    /// An empty queue with the default delay.
    pub fn new() -> (r: Self)
        ensures
            r.wf(),
            r@.len() == 0,
            r.delay_ms() == DEFAULT_TRANSACTION_DELAY_MS,
    {
        TransactionQueue { transactions: Vec::new(), transaction_delay_ms: DEFAULT_TRANSACTION_DELAY_MS }
    }

    /// An empty queue with the given delay.
    pub fn with_delay(delay_ms: u64) -> (r: Self)
        ensures
            r.wf(),
            r@.len() == 0,
            r.delay_ms() == delay_ms,
    {
        TransactionQueue { transactions: Vec::new(), transaction_delay_ms: delay_ms }
    }

    /// Sets the delay between transactions of a batch.
    pub fn set_delay(&mut self, delay_ms: u64)
        ensures
            final(self)@ == old(self)@,
            final(self).wf() == old(self).wf(),
            final(self).delay_ms() == delay_ms,
    {
        self.transaction_delay_ms = delay_ms;
    }

    /// The delay between transactions of a batch.
    pub fn get_delay(&self) -> (r: u64)
        ensures
            r == self.delay_ms(),
    {
        self.transaction_delay_ms
    }

    /// The pause after item `position` of a batch of `batch_len` items: the
    /// queue's delay between transactions, and none after the last.
    pub fn delay_after(&self, position: usize, batch_len: usize) -> (r: u64)
        ensures
            position + 1 < batch_len ==> r == self.delay_ms(),
            position + 1 >= batch_len ==> r == 0,
    {
        if position < batch_len && batch_len - position > 1 {
            self.transaction_delay_ms
        } else {
            0
        }
    }

    /// Appends transfers as pending, with fresh ids in order.
    pub fn add_transactions(&mut self, transactions: Vec<(PendingTransaction, String, String)>)
        requires
            old(self).wf(),
            old(self)@.len() + transactions.len() <= usize::MAX,
        ensures
            final(self).wf(),
            final(self).delay_ms() == old(self).delay_ms(),
            final(self)@.len() == old(self)@.len() + transactions.len(),
            final(self)@.subrange(0, old(self)@.len() as int) == old(self)@,
            forall|j: int|
                0 <= j < transactions.len() ==> {
                    let q = #[trigger] final(self)@[old(self)@.len() + j];
                    &&& q.id == old(self)@.len() + j
                    &&& q.transaction == transactions@[j].0
                    &&& q.status is Pending
                    &&& q.description == transactions@[j].1
                    &&& q.destination_label == transactions@[j].2
                },
    {
        let ghost start = self.transactions@.len();
        let ghost input = transactions@;
        let mut k: usize = 0;
        let mut rest = transactions;
        let ghost old_txs = self.transactions@;
        while k < rest.len()
            invariant
                rest@ == input,
                k <= rest.len(),
                start + rest.len() <= usize::MAX,
                self.transactions@.len() == start + k,
                self.transactions@.subrange(0, start as int) == old_txs,
                self.transaction_delay_ms == old(self).transaction_delay_ms,
                forall|i: int| 0 <= i < self.transactions@.len() ==> #[trigger] self.transactions@[i].id == i,
                forall|j: int|
                    0 <= j < k ==> {
                        let q = #[trigger] self.transactions@[start + j];
                        &&& q.transaction == input[j].0
                        &&& q.status is Pending
                        &&& q.description == input[j].1
                        &&& q.destination_label == input[j].2
                    },
            decreases rest.len() - k,
        {
            let entry = &rest[k];
            let id = self.transactions.len();
            self.transactions.push(
                QueuedTransaction {
                    id,
                    transaction: entry.0.clone(),
                    status: TransactionStatus::Pending,
                    description: entry.1.clone(),
                    destination_label: entry.2.clone(),
                },
            );
            proof {
                assert(self.transactions@.subrange(0, start as int) =~= old_txs);
                assert forall|j: int| 0 <= j < k + 1 implies {
                    let q = #[trigger] self.transactions@[start + j];
                    &&& q.transaction == input[j].0
                    &&& q.status is Pending
                    &&& q.description == input[j].1
                    &&& q.destination_label == input[j].2
                } by {}
            }
            k = k + 1;
        }
        proof {
            assert(self.transactions@.subrange(0, start as int) =~= old_txs);
        }
    }

    /// Removes every transaction.
    pub fn clear(&mut self)
        ensures
            final(self).wf(),
            final(self)@.len() == 0,
            final(self).delay_ms() == old(self).delay_ms(),
    {
        self.transactions = Vec::new();
    }

    /// A snapshot of every transaction, in order.
    pub fn get_transactions(&self) -> (r: Vec<QueuedTransaction>)
        ensures
            r@ == self@,
    {
        let r = self.transactions.clone();
        proof {
            assert(r@ =~= self.transactions@);
        }
        r
    }

    /// The status of transaction `id`, if there is one.
    pub fn get_transaction_status(&self, id: usize) -> (r: Option<TransactionStatus>)
        requires
            self.wf(),
        ensures
            id < self@.len() ==> r == Some(self@[id as int].status),
            id >= self@.len() ==> r is None,
    {
        if id < self.transactions.len() {
            Some(self.transactions[id].status.clone())
        } else {
            None
        }
    }

    /// Sets the status of transaction `id`; does nothing where there is none.
    pub fn update_status(&mut self, id: usize, status: TransactionStatus)
        requires
            old(self).wf(),
        ensures
            final(self).wf(),
            final(self).delay_ms() == old(self).delay_ms(),
            id < old(self)@.len() ==> final(self)@ == with_status(old(self)@, id as int, status),
            id >= old(self)@.len() ==> final(self)@ == old(self)@,
    {
        if id < self.transactions.len() {
            let mut q = self.transactions[id].clone();
            q.status = status;
            self.transactions.set(id, q);
            proof {
                assert(self.transactions@ =~= with_status(old(self).transactions@, id as int, status));
            }
        }
    }

    /// Changes the amount of a pending transaction.
    pub fn update_pending_transaction_value(&mut self, id: usize, new_value: u128) -> (r: Result<
        (),
        QueueError,
    >)
        requires
            old(self).wf(),
        ensures
            final(self).wf(),
            final(self).delay_ms() == old(self).delay_ms(),
            id >= old(self)@.len() ==> r == Err::<(), QueueError>(QueueError::NotFound),
            id < old(self)@.len() && !(old(self)@[id as int].status is Pending) ==> r == Err::<
                (),
                QueueError,
            >(QueueError::NotPending),
            r is Err ==> final(self)@ == old(self)@,
            r is Ok <==> id < old(self)@.len() && old(self)@[id as int].status is Pending,
            r is Ok ==> final(self)@ == old(self)@.update(
                id as int,
                QueuedTransaction {
                    transaction: PendingTransaction {
                        value: new_value,
                        ..old(self)@[id as int].transaction
                    },
                    ..old(self)@[id as int]
                },
            ),
    {
        if id >= self.transactions.len() {
            return Err(QueueError::NotFound);
        }
        match self.transactions[id].status {
            TransactionStatus::Pending => {
                let mut q = self.transactions[id].clone();
                q.transaction.value = new_value;
                self.transactions.set(id, q);
                Ok(())
            },
            _ => Err(QueueError::NotPending),
        }
    }

    /// Marks transaction `id` in progress and hands out its transfer, when it
    /// is pending or a retryable failure.
    pub fn begin_execution(&mut self, id: usize) -> (r: Result<PendingTransaction, QueueError>)
        requires
            old(self).wf(),
        ensures
            final(self).wf(),
            final(self).delay_ms() == old(self).delay_ms(),
            id >= old(self)@.len() ==> r matches Err(QueueError::NotFound),
            id < old(self)@.len() && !executable(old(self)@[id as int].status) ==> r matches Err(
                QueueError::NotExecutable,
            ),
            r is Err ==> final(self)@ == old(self)@,
            r is Ok <==> id < old(self)@.len() && executable(old(self)@[id as int].status),
            r matches Ok(t) ==> {
                &&& t == old(self)@[id as int].transaction
                &&& final(self)@ == with_status(old(self)@, id as int, TransactionStatus::InProgress)
            },
    {
        if id >= self.transactions.len() {
            return Err(QueueError::NotFound);
        }
        let ok = match &self.transactions[id].status {
            TransactionStatus::Pending => true,
            TransactionStatus::Failed { retryable, .. } => *retryable,
            _ => false,
        };
        if !ok {
            return Err(QueueError::NotExecutable);
        }
        let t = self.transactions[id].transaction.clone();
        self.update_status(id, TransactionStatus::InProgress);
        Ok(t)
    }

    /// The step of a batch run for transaction `id`: only a transaction that
    /// is still pending is marked in progress and handed out; one that was
    /// skipped or otherwise moved on since the batch began is left as it is.
    pub fn begin_batch_item(&mut self, id: usize) -> (r: Option<PendingTransaction>)
        requires
            old(self).wf(),
        ensures
            final(self).wf(),
            final(self).delay_ms() == old(self).delay_ms(),
            r is Some <==> id < old(self)@.len() && old(self)@[id as int].status is Pending,
            r is None ==> final(self)@ == old(self)@,
            r matches Some(t) ==> {
                &&& t == old(self)@[id as int].transaction
                &&& final(self)@ == with_status(old(self)@, id as int, TransactionStatus::InProgress)
            },
    {
        if id >= self.transactions.len() {
            return None;
        }
        match self.transactions[id].status {
            TransactionStatus::Pending => {},
            _ => {
                return None;
            },
        }
        let t = self.transactions[id].transaction.clone();
        self.update_status(id, TransactionStatus::InProgress);
        Some(t)
    }

    /// Records the outcome of executing transaction `id`.
    pub fn finish_execution(&mut self, id: usize, result: TransactionResult)
        requires
            old(self).wf(),
        ensures
            final(self).wf(),
            final(self).delay_ms() == old(self).delay_ms(),
            id < old(self)@.len() ==> final(self)@ == with_status(
                old(self)@,
                id as int,
                status_of_result(result),
            ),
            id >= old(self)@.len() ==> final(self)@ == old(self)@,
    {
        let status = match result {
            TransactionResult::Success { tx_hash, block_number, gas_used } => {
                TransactionStatus::Success { tx_hash, block_number, gas_used }
            },
            TransactionResult::Failed { error, retryable } => {
                TransactionStatus::Failed { error, retryable }
            },
        };
        self.update_status(id, status);
    }

    /// The ids of the pending transactions, in ascending order: the batch
    /// that a run over the queue works through.
    pub fn pending_ids(&self) -> (r: Vec<usize>)
        requires
            self.wf(),
        ensures
            forall|k: int| 0 <= k < r.len() ==> #[trigger] r@[k] < self@.len() && self@[r@[k] as int].status is Pending,
            forall|k: int, l: int| 0 <= k < l < r.len() ==> r@[k] < r@[l],
            forall|i: int| 0 <= i < self@.len() && (#[trigger] self@[i]).status is Pending ==> r@.contains(i as usize),
            r.len() == count_status(self@, 0),
    {
        let mut r: Vec<usize> = Vec::new();
        let mut i: usize = 0;
        while i < self.transactions.len()
            invariant
                i <= self.transactions.len(),
                forall|k: int| 0 <= k < r.len() ==> #[trigger] r@[k] < i && self.transactions@[r@[k] as int].status is Pending,
                forall|k: int, l: int| 0 <= k < l < r.len() ==> r@[k] < r@[l],
                forall|j: int| 0 <= j < i && (#[trigger] self.transactions@[j]).status is Pending ==> r@.contains(j as usize),
                r.len() == count_status(self.transactions@.subrange(0, i as int), 0),
            decreases self.transactions.len() - i,
        {
            proof {
                let prefix = self.transactions@.subrange(0, i as int);
                let next = self.transactions@.subrange(0, i + 1);
                assert(next.drop_last() =~= prefix);
                assert(next.last() == self.transactions@[i as int]);
            }
            let pending = match self.transactions[i].status {
                TransactionStatus::Pending => true,
                _ => false,
            };
            if pending {
                let ghost before = r@;
                r.push(i);
                proof {
                    assert forall|j: int| 0 <= j < i + 1 && (#[trigger] self.transactions@[j]).status is Pending implies r@.contains(j as usize) by {
                        if j < i {
                            let w = choose|w: int| 0 <= w < before.len() && before[w] == j as usize;
                            assert(r@[w] == j as usize);
                        } else {
                            assert(r@[before.len() as int] == j as usize);
                        }
                    }
                }
            }
            i = i + 1;
        }
        proof {
            assert(self.transactions@.subrange(0, i as int) =~= self.transactions@);
        }
        r
    }

    /// Skips a pending transaction.
    pub fn skip_transaction(&mut self, id: usize) -> (r: Result<(), QueueError>)
        requires
            old(self).wf(),
        ensures
            final(self).wf(),
            final(self).delay_ms() == old(self).delay_ms(),
            id >= old(self)@.len() ==> r == Err::<(), QueueError>(QueueError::NotFound),
            id < old(self)@.len() && !(old(self)@[id as int].status is Pending) ==> r == Err::<
                (),
                QueueError,
            >(QueueError::CannotSkip),
            r is Err ==> final(self)@ == old(self)@,
            r is Ok <==> id < old(self)@.len() && old(self)@[id as int].status is Pending,
            r is Ok ==> final(self)@ == with_status(old(self)@, id as int, TransactionStatus::Skipped),
    {
        if id >= self.transactions.len() {
            return Err(QueueError::NotFound);
        }
        match self.transactions[id].status {
            TransactionStatus::Pending => {
                self.update_status(id, TransactionStatus::Skipped);
                Ok(())
            },
            _ => Err(QueueError::CannotSkip),
        }
    }
}

/// The status that an execution outcome leaves.
pub open spec fn status_of_result(result: TransactionResult) -> TransactionStatus {
    match result {
        TransactionResult::Success { tx_hash, block_number, gas_used } => {
            TransactionStatus::Success { tx_hash, block_number, gas_used }
        },
        TransactionResult::Failed { error, retryable } => TransactionStatus::Failed {
            error,
            retryable,
        },
    }
}

/// The kind of a status, as a number: pending 0, in progress 1, success 2,
/// failed 3, skipped 4.
pub open spec fn status_kind(s: TransactionStatus) -> int {
    match s {
        TransactionStatus::Pending => 0,
        TransactionStatus::InProgress => 1,
        TransactionStatus::Success { .. } => 2,
        TransactionStatus::Failed { .. } => 3,
        TransactionStatus::Skipped => 4,
    }
}

/// How many transactions of `txs` have a status of kind `kind`.
pub open spec fn count_status(txs: Seq<QueuedTransaction>, kind: int) -> nat
    decreases txs.len(),
{
    if txs.len() == 0 {
        0
    } else {
        count_status(txs.drop_last(), kind) + if status_kind(txs.last().status) == kind {
            1nat
        } else {
            0nat
        }
    }
}

proof fn lemma_count_le(txs: Seq<QueuedTransaction>, f: int)
    ensures
        count_status(txs, f) <= txs.len(),
    decreases txs.len(),
{
    if txs.len() > 0 {
        lemma_count_le(txs.drop_last(), f);
    }
}

/// Counts of the queue's transactions by status.
pub struct QueueStatistics {
    pub total: usize,
    pub pending: usize,
    pub in_progress: usize,
    pub success: usize,
    pub failed: usize,
    pub skipped: usize,
}

impl QueueStatistics {
    /// Nothing is pending or in progress.
    pub fn is_complete(&self) -> (r: bool)
        ensures
            r == (self.pending == 0 && self.in_progress == 0),
    {
        self.pending == 0 && self.in_progress == 0
    }

    /// One line with the total and the count of each final status.
    pub fn summary(&self) -> (r: String)
        ensures
            r@ == "Total: "@ + decimal(self.total as nat) + " | Pending: "@ + decimal(
                self.pending as nat,
            ) + " | Success: "@ + decimal(self.success as nat) + " | Failed: "@ + decimal(
                self.failed as nat,
            ) + " | Skipped: "@ + decimal(self.skipped as nat),
    {
        let mut r = String::from_str("Total: ");
        push_decimal(&mut r, self.total as u128);
        r.append(" | Pending: ");
        push_decimal(&mut r, self.pending as u128);
        r.append(" | Success: ");
        push_decimal(&mut r, self.success as u128);
        r.append(" | Failed: ");
        push_decimal(&mut r, self.failed as u128);
        r.append(" | Skipped: ");
        push_decimal(&mut r, self.skipped as u128);
        r
    }
}

impl TransactionQueue {
    /// Counts the transactions by status.
    pub fn get_statistics(&self) -> (r: QueueStatistics)
        ensures
            r.total == self@.len(),
            r.pending == count_status(self@, 0),
            r.in_progress == count_status(self@, 1),
            r.success == count_status(self@, 2),
            r.failed == count_status(self@, 3),
            r.skipped == count_status(self@, 4),
    {
        let mut stats = QueueStatistics {
            total: 0,
            pending: 0,
            in_progress: 0,
            success: 0,
            failed: 0,
            skipped: 0,
        };
        let mut i: usize = 0;
        while i < self.transactions.len()
            invariant
                i <= self.transactions.len(),
                stats.total == i,
                stats.pending == count_status(self.transactions@.subrange(0, i as int), 0),
                stats.in_progress == count_status(self.transactions@.subrange(0, i as int), 1),
                stats.success == count_status(self.transactions@.subrange(0, i as int), 2),
                stats.failed == count_status(self.transactions@.subrange(0, i as int), 3),
                stats.skipped == count_status(self.transactions@.subrange(0, i as int), 4),
            decreases self.transactions.len() - i,
        {
            let ghost prefix = self.transactions@.subrange(0, i as int);
            let ghost next = self.transactions@.subrange(0, i + 1);
            proof {
                assert(next.drop_last() =~= prefix);
                lemma_count_le(prefix, 0);
                lemma_count_le(prefix, 1);
                lemma_count_le(prefix, 2);
                lemma_count_le(prefix, 3);
                lemma_count_le(prefix, 4);
                assert(next.last() == self.transactions@[i as int]);
                assert(count_status(next, 0) == count_status(prefix, 0) + if status_kind(next.last().status) == 0 { 1nat } else { 0nat });
                assert(count_status(next, 1) == count_status(prefix, 1) + if status_kind(next.last().status) == 1 { 1nat } else { 0nat });
                assert(count_status(next, 2) == count_status(prefix, 2) + if status_kind(next.last().status) == 2 { 1nat } else { 0nat });
                assert(count_status(next, 3) == count_status(prefix, 3) + if status_kind(next.last().status) == 3 { 1nat } else { 0nat });
                assert(count_status(next, 4) == count_status(prefix, 4) + if status_kind(next.last().status) == 4 { 1nat } else { 0nat });
            }
            stats.total = stats.total + 1;
            match self.transactions[i].status {
                TransactionStatus::Pending => stats.pending = stats.pending + 1,
                TransactionStatus::InProgress => stats.in_progress = stats.in_progress + 1,
                TransactionStatus::Success { .. } => stats.success = stats.success + 1,
                TransactionStatus::Failed { .. } => stats.failed = stats.failed + 1,
                TransactionStatus::Skipped => stats.skipped = stats.skipped + 1,
            }
            i = i + 1;
        }
        proof {
            assert(self.transactions@.subrange(0, i as int) =~= self.transactions@);
        }
        stats
    }
}

} // verus!
