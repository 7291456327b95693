//! Gas estimates for contract calls.

use vstd::prelude::*;

verus! {

/// The largest gas limit handed out: a typical block gas limit.
pub const MAX_DISPERSE_GAS: u64 = 15_000_000;

/// The gas limit of a disperse contract call: 150k for the call and 120k per
/// recipient, plus a tenth, capped at the block gas limit.
pub open spec fn disperse_gas_spec(recipient_count: int) -> int {
    let with_buffer = (150_000 + 120_000 * recipient_count) * 11 / 10;
    if with_buffer > 15_000_000 {
        15_000_000
    } else {
        with_buffer
    }
}

/// The gas limit of a disperse contract call for `recipient_count` recipients.
pub fn calculate_disperse_gas_limit(recipient_count: usize) -> (r: u64)
    ensures
        r == disperse_gas_spec(recipient_count as int),
{
    if recipient_count >= 114 {
        assert((150_000 + 120_000 * recipient_count) * 11 / 10 > 15_000_000) by (nonlinear_arith)
            requires
                recipient_count >= 114,
        ;
        return MAX_DISPERSE_GAS;
    }
    let base = 150_000u64 + 120_000u64 * (recipient_count as u64);
    let with_buffer = base * 11 / 10;
    if with_buffer > MAX_DISPERSE_GAS {
        MAX_DISPERSE_GAS
    } else {
        with_buffer
    }
}

} // verus!
