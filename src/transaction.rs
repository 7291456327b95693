//! A planned transfer, ready to be signed.

use vstd::prelude::*;
use crate::types::Address;

verus! {

/// A transfer produced by the planner. Amounts and gas prices are in wei.
pub struct PendingTransaction {
    pub to: Address,
    pub value: u128,
    pub gas_limit: u64,
    pub gas_price: u128,
    pub operation_name: String,
}

impl Clone for PendingTransaction {
    fn clone(&self) -> (r: Self)
        ensures
            r == *self,
    {
        PendingTransaction {
            to: self.to,
            value: self.value,
            gas_limit: self.gas_limit,
            gas_price: self.gas_price,
            operation_name: self.operation_name.clone(),
        }
    }
}

/// The amounts of a list of transfers.
pub open spec fn amounts_of(txs: Seq<PendingTransaction>) -> Seq<u128> {
    txs.map_values(|t: PendingTransaction| t.value)
}

} // verus!
