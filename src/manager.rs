//! Decisions of the transaction manager: nonce sequencing, retry with
//! exponential backoff, confirmation polling and batch pacing. The manager's
//! outside work (signing, broadcasting, polling the chain, sleeping) is done
//! by its caller, which hands each outcome back to these functions.

use vstd::prelude::*;
use crate::config::{DerivationMode, DEFAULT_COIN_TYPE};
use crate::device_errors::{is_retryable_error, retryable_spec};

verus! {

/// A 32-byte transaction hash.
pub type TxHash = [u8; 32];

/// The outcome of executing one transaction.
pub enum TransactionResult {
    /// Broadcast; the block and gas are known once a receipt was seen.
    Success { tx_hash: TxHash, block_number: Option<u64>, gas_used: u64 },
    /// Not broadcast.
    Failed { error: String, retryable: bool },
}

impl Clone for TransactionResult {
    fn clone(&self) -> (r: Self)
        ensures
            r == *self,
    {
        match self {
            TransactionResult::Success { tx_hash, block_number, gas_used } => {
                TransactionResult::Success {
                    tx_hash: *tx_hash,
                    block_number: *block_number,
                    gas_used: *gas_used,
                }
            },
            TransactionResult::Failed { error, retryable } => {
                TransactionResult::Failed { error: error.clone(), retryable: *retryable }
            },
        }
    }
}

/// The nonce assigned when the tracker last handed out `state` (the next
/// nonce it would use, if any) and the chain reports `on_chain` sent
/// transactions: the larger of the two.
pub open spec fn assigned_nonce(state: Option<u64>, on_chain: u64) -> int {
    match state {
        Some(n) => if n >= on_chain {
            n as int
        } else {
            on_chain as int
        },
        None => on_chain as int,
    }
}

/// Keeps the nonce sequence of the source account. A nonce never goes back,
/// and transactions sent from elsewhere are taken into account.
pub struct NonceTracker {
    current_nonce: Option<u64>,
}

impl View for NonceTracker {
    type V = Option<u64>;

    closed spec fn view(&self) -> Option<u64> {
        self.current_nonce
    }
}

impl NonceTracker {
    /// A tracker that has handed out nothing yet.
    pub fn new() -> (r: Self)
        ensures
            r@ is None,
    {
        NonceTracker { current_nonce: None }
    }

    /// Takes in the chain's transaction count, which it returns. The tracked
    /// next nonce becomes the larger of the two, so a nonce already handed
    /// out is never handed out again while earlier transactions are still
    /// pending.
    pub fn refresh_nonce(&mut self, on_chain_count: u64) -> (r: u64)
        ensures
            r == on_chain_count,
            final(self)@ == Some(assigned_nonce(old(self)@, on_chain_count) as u64),
    {
        let next = match self.current_nonce {
            Some(n) => if n >= on_chain_count {
                n
            } else {
                on_chain_count
            },
            None => on_chain_count,
        };
        self.current_nonce = Some(next);
        on_chain_count
    }

    /// The nonce for the next transaction, given the chain's current
    /// transaction count: the larger of the tracked next nonce and that count.
    /// The tracker then moves one past it. `None`, with nothing changed, when
    /// the nonce space is used up.
    pub fn get_next_nonce(&mut self, on_chain_count: u64) -> (r: Option<u64>)
        ensures
            assigned_nonce(old(self)@, on_chain_count) < u64::MAX ==> {
                &&& r == Some(assigned_nonce(old(self)@, on_chain_count) as u64)
                &&& final(self)@ == Some((assigned_nonce(old(self)@, on_chain_count) + 1) as u64)
            },
            assigned_nonce(old(self)@, on_chain_count) >= u64::MAX ==> {
                &&& r is None
                &&& final(self)@ == old(self)@
            },
            r matches Some(n) ==> forall|later: Seq<u64>|
                #[trigger] nonce_run(old(self)@, seq![on_chain_count] + later) == seq![n as int]
                    + nonce_run(final(self)@, later),
    {
        let next = match self.current_nonce {
            Some(n) => if n >= on_chain_count {
                n
            } else {
                on_chain_count
            },
            None => on_chain_count,
        };
        if next == u64::MAX {
            return None;
        }
        proof {
            assert forall|later: Seq<u64>|
                #[trigger] nonce_run(old(self)@, seq![on_chain_count] + later) == seq![next as int]
                    + nonce_run(Some((next + 1) as u64), later) by {
                assert((seq![on_chain_count] + later).drop_first() =~= later);
            }
        }
        self.current_nonce = Some(next + 1);
        Some(next)
    }
}

/// The nonces handed out by successive calls of `get_next_nonce`, starting
/// from `state`, when the chain reports the counts `observed` in turn. Each
/// call states that it hands out the first of this run and leaves the rest
/// to the calls after it.
pub open spec fn nonce_run(state: Option<u64>, observed: Seq<u64>) -> Seq<int>
    decreases observed.len(),
{
    if observed.len() == 0 {
        seq![]
    } else {
        let a = assigned_nonce(state, observed[0]);
        if a >= u64::MAX {
            seq![]
        } else {
            seq![a] + nonce_run(Some((a + 1) as u64), observed.drop_first())
        }
    }
}

proof fn lemma_nonce_run_from(s: u64, observed: Seq<u64>)
    requires
        forall|i: int| 0 <= i < observed.len() ==> observed[i] <= s + i,
        s + observed.len() < u64::MAX,
    ensures
        nonce_run(Some(s), observed).len() == observed.len(),
        forall|i: int| 0 <= i < observed.len() ==> #[trigger] nonce_run(Some(s), observed)[i] == s + i,
    decreases observed.len(),
{
    if observed.len() > 0 {
        let rest = observed.drop_first();
        assert forall|i: int| 0 <= i < rest.len() implies rest[i] <= (s + 1) + i by {
            assert(rest[i] == observed[i + 1]);
        }
        lemma_nonce_run_from((s + 1) as u64, rest);
        let run = nonce_run(Some(s), observed);
        assert forall|i: int| 0 <= i < observed.len() implies #[trigger] run[i] == s + i by {
            if i > 0 {
                assert(run[i] == nonce_run(Some((s + 1) as u64), rest)[i - 1]);
            }
        }
    }
}

/// Nonce monotonicity: starting fresh, or from a next nonce equal to the
/// chain's count `c` (as a refresh leaves a fresh tracker), `k` successive
/// requests with no transactions sent from elsewhere
/// (the chain's count starts at `c` and never runs ahead of what this
/// tracker handed out) yield `c, c + 1, ..., c + k - 1`.
pub proof fn lemma_nonce_sequence_strictly_increasing(
    refreshed: bool,
    c: u64,
    observed: Seq<u64>,
)
    requires
        observed.len() > 0,
        observed[0] == c,
        forall|i: int| 0 <= i < observed.len() ==> observed[i] <= c + i,
        c + observed.len() < u64::MAX,
    ensures
        ({
            let start = if refreshed {
                Some(c)
            } else {
                None::<u64>
            };
            let run = nonce_run(start, observed);
            &&& run.len() == observed.len()
            &&& forall|i: int| 0 <= i < run.len() ==> #[trigger] run[i] == c + i
            &&& forall|i: int, j: int| 0 <= i < j < run.len() ==> run[i] < run[j]
        }),
{
    let start = if refreshed {
        Some(c)
    } else {
        None::<u64>
    };
    let rest = observed.drop_first();
    assert forall|i: int| 0 <= i < rest.len() implies rest[i] <= (c + 1) + i by {
        assert(rest[i] == observed[i + 1]);
    }
    lemma_nonce_run_from((c + 1) as u64, rest);
    let run = nonce_run(start, observed);
    assert forall|i: int| 0 <= i < run.len() implies #[trigger] run[i] == c + i by {
        if i > 0 {
            assert(run[i] == nonce_run(Some((c + 1) as u64), rest)[i - 1]);
        }
    }
}

/// Every nonce of a run from a tracked next nonce `s` is at least `s`, and
/// each is above the ones before it.
proof fn lemma_nonce_run_from_at_least(s: u64, observed: Seq<u64>)
    ensures
        forall|i: int| 0 <= i < nonce_run(Some(s), observed).len() ==> #[trigger] nonce_run(
            Some(s),
            observed,
        )[i] >= s,
        forall|i: int, j: int|
            0 <= i < j < nonce_run(Some(s), observed).len() ==> nonce_run(Some(s), observed)[i]
                < nonce_run(Some(s), observed)[j],
    decreases observed.len(),
{
    if observed.len() > 0 {
        let a = assigned_nonce(Some(s), observed[0]);
        if a < u64::MAX {
            let rest = observed.drop_first();
            lemma_nonce_run_from_at_least((a + 1) as u64, rest);
            let tail = nonce_run(Some((a + 1) as u64), rest);
            let run = nonce_run(Some(s), observed);
            assert(run == seq![a] + tail);
            assert forall|i: int| 0 <= i < run.len() implies #[trigger] run[i] >= s by {
                if i > 0 {
                    assert(run[i] == tail[i - 1]);
                }
            }
            assert forall|i: int, j: int| 0 <= i < j < run.len() implies run[i] < run[j] by {
                assert(run[j] == tail[j - 1]);
                if i > 0 {
                    assert(run[i] == tail[i - 1]);
                }
            }
        }
    }
}

/// A refresh never moves the nonce sequence back: once the tracker's next
/// nonce is `n` (nonces below it were handed out), every nonce handed out
/// after a refresh, whatever count the chain reports then and later, is at
/// least `n`, and the nonces keep rising.
pub proof fn lemma_refresh_never_regresses(n: u64, on_chain_count: u64, observed: Seq<u64>)
    ensures
        assigned_nonce(Some(n), on_chain_count) >= n,
        ({
            let run = nonce_run(Some(assigned_nonce(Some(n), on_chain_count) as u64), observed);
            &&& forall|i: int| 0 <= i < run.len() ==> #[trigger] run[i] >= n
            &&& forall|i: int, j: int| 0 <= i < j < run.len() ==> run[i] < run[j]
        }),
{
    lemma_nonce_run_from_at_least(assigned_nonce(Some(n), on_chain_count) as u64, observed);
}

/// `2^k`.
pub open spec fn pow2(k: nat) -> nat
    decreases k,
{
    if k == 0 {
        1
    } else {
        2 * pow2((k - 1) as nat)
    }
}

/// The backoff before retry number `attempt` (counted from 1): the base
/// delay doubled once per earlier attempt, capped at the largest `u64`.
pub open spec fn backoff_spec(base: u64, attempt: nat) -> int {
    let d = base * pow2((attempt - 1) as nat);
    if d > u64::MAX {
        u64::MAX as int
    } else {
        d
    }
}

/// The backoff before retrying after failed attempt `attempt` (from 1).
pub fn backoff_delay_ms(retry_delay_ms: u64, attempt: u32) -> (r: u64)
    requires
        attempt >= 1,
    ensures
        r == backoff_spec(retry_delay_ms, attempt as nat),
{
    let mut d: u64 = retry_delay_ms;
    let mut k: u32 = 1;
    let mut capped = false;
    assert(pow2(0) == 1);
    assert(retry_delay_ms * pow2(0) == retry_delay_ms);
    while k < attempt
        invariant
            1 <= k <= attempt,
            !capped ==> d == retry_delay_ms * pow2((k - 1) as nat),
            capped ==> d == u64::MAX && retry_delay_ms * pow2((k - 1) as nat) > u64::MAX,
        decreases attempt - k,
    {
        proof {
            assert(pow2(k as nat) == 2 * pow2((k - 1) as nat));
            assert(retry_delay_ms * pow2(k as nat) == 2 * (retry_delay_ms * pow2((k - 1) as nat))) by (nonlinear_arith)
                requires
                    pow2(k as nat) == 2 * pow2((k - 1) as nat),
            ;
        }
        if !capped {
            if d > u64::MAX / 2 {
                d = u64::MAX;
                capped = true;
            } else {
                d = d * 2;
            }
        }
        k = k + 1;
    }
    proof {
        assert(retry_delay_ms * pow2((attempt - 1) as nat) >= 0) by (nonlinear_arith)
            requires
                retry_delay_ms >= 0,
                pow2((attempt - 1) as nat) >= 0,
        ;
    }
    d
}

/// What to do after a failed signing attempt.
pub enum RetryDecision {
    /// Sleep this many milliseconds, then retry with a fresh nonce.
    RetryAfter(u64),
    /// Stop with this failure.
    GiveUp(TransactionResult),
}

/// After failed attempt `attempt` (from 1) with error text `error`: retry
/// after the backoff while the error is retryable and attempts remain,
/// otherwise give up with the error and its class.
pub fn on_send_failure(
    attempt: u32,
    max_retries: u32,
    retry_delay_ms: u64,
    error: String,
) -> (r: RetryDecision)
    requires
        attempt >= 1,
    ensures
        retryable_spec(error@) && attempt <= max_retries ==> r == RetryDecision::RetryAfter(
            backoff_spec(retry_delay_ms, attempt as nat) as u64,
        ),
        !(retryable_spec(error@) && attempt <= max_retries) ==> r == RetryDecision::GiveUp(
            (TransactionResult::Failed { error, retryable: retryable_spec(error@) }),
        ),
{
    let retryable = is_retryable_error(error.as_str());
    if attempt > max_retries || !retryable {
        RetryDecision::GiveUp(TransactionResult::Failed { error, retryable })
    } else {
        RetryDecision::RetryAfter(backoff_delay_ms(retry_delay_ms, attempt))
    }
}

/// A rejection on the device ("denied", "rejected") is final: the failure is
/// classified not retryable, and no retry is made whatever attempts remain.
pub proof fn lemma_rejection_never_retried(
    attempt: u32,
    max_retries: u32,
    retry_delay_ms: u64,
    error: Seq<char>,
)
    requires
        attempt >= 1,
        crate::text::contains_seq(error, "denied"@) || crate::text::contains_seq(error, "rejected"@),
    ensures
        !retryable_spec(error),
        !(retryable_spec(error) && attempt <= max_retries),
{
}

/// The outcome of a broadcast transaction: its receipt's block and gas when
/// one was seen, else a success without them (sent but not confirmed in
/// time still counts as sent).
pub fn confirmed_result(tx_hash: TxHash, receipt: Option<(Option<u64>, u64)>) -> (r: TransactionResult)
    ensures
        receipt matches Some((b, g)) ==> r == (TransactionResult::Success {
            tx_hash,
            block_number: b,
            gas_used: g,
        }),
        receipt is None ==> r == (TransactionResult::Success {
            tx_hash,
            block_number: None,
            gas_used: 0,
        }),
{
    match receipt {
        Some((block_number, gas_used)) => TransactionResult::Success {
            tx_hash,
            block_number,
            gas_used,
        },
        None => TransactionResult::Success { tx_hash, block_number: None, gas_used: 0 },
    }
}

/// The interval between receipt polls, in milliseconds.
pub const CONFIRMATION_POLL_MS: u64 = 500;

/// How many receipt polls fit in the confirmation timeout (two a second).
pub fn confirmation_poll_limit(confirmation_timeout_secs: u64) -> (r: u64)
    ensures
        r == if confirmation_timeout_secs * 2 > u64::MAX {
            u64::MAX as int
        } else {
            confirmation_timeout_secs * 2
        },
{
    if confirmation_timeout_secs > u64::MAX / 2 {
        u64::MAX
    } else {
        confirmation_timeout_secs * 2
    }
}

/// The extra pause before each transaction of a batch after the first.
pub const BATCH_EXTRA_DELAY_MS: u64 = 500;

/// The pause before transaction `index` of a batch: none before the first,
/// the inter-transaction delay plus a small buffer before the others.
pub fn batch_delay_before(index: usize, inter_transaction_delay_ms: u64) -> (r: u64)
    ensures
        index == 0 ==> r == 0,
        index > 0 ==> r == if inter_transaction_delay_ms + 500 > u64::MAX {
            u64::MAX as int
        } else {
            inter_transaction_delay_ms + 500
        },
{
    if index == 0 {
        0
    } else if inter_transaction_delay_ms > u64::MAX - BATCH_EXTRA_DELAY_MS {
        u64::MAX
    } else {
        inter_transaction_delay_ms + BATCH_EXTRA_DELAY_MS
    }
}

/// How the manager paces, retries and confirms transactions, and how it
/// derives the signing path.
#[derive(Clone, Copy, Debug)]
pub struct TransactionManagerConfig {
    pub inter_transaction_delay_ms: u64,
    pub max_retries: u32,
    pub retry_delay_ms: u64,
    pub wait_for_confirmation: bool,
    pub confirmation_timeout_secs: u64,
    pub derivation_mode: DerivationMode,
    pub custom_account: u32,
    pub custom_address_index: u32,
    pub coin_type: u32,
    pub use_native_ledger: bool,
}

impl Default for TransactionManagerConfig {
    fn default() -> (r: Self)
        ensures
            r.inter_transaction_delay_ms == 3000,
            r.max_retries == 2,
            r.retry_delay_ms == 2000,
            r.wait_for_confirmation,
            r.confirmation_timeout_secs == 90,
            r.derivation_mode == DerivationMode::AccountIndex,
            r.custom_account == 0,
            r.custom_address_index == 0,
            r.coin_type == DEFAULT_COIN_TYPE,
            !r.use_native_ledger,
    {
        TransactionManagerConfig {
            inter_transaction_delay_ms: 3000,
            max_retries: 2,
            retry_delay_ms: 2000,
            wait_for_confirmation: true,
            confirmation_timeout_secs: 90,
            derivation_mode: DerivationMode::AccountIndex,
            custom_account: 0,
            custom_address_index: 0,
            coin_type: DEFAULT_COIN_TYPE,
            use_native_ledger: false,
        }
    }
}

} // verus!
