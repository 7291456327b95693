//! Account snapshots shared by the scanner and the planner.

use vstd::prelude::*;

verus! {

/// A 20-byte account address.
pub type Address = [u8; 20];

/// A point-in-time snapshot of a derived account. Balances are in wei.
pub struct AccountInfo {
    pub index: u32,
    pub address: Address,
    pub balance: u128,
    pub nonce: u64,
    pub derivation_path: String,
}

impl Clone for AccountInfo {
    fn clone(&self) -> (r: Self)
        ensures
            r == *self,
    {
        AccountInfo {
            index: self.index,
            address: self.address,
            balance: self.balance,
            nonce: self.nonce,
            derivation_path: self.derivation_path.clone(),
        }
    }
}

} // verus!
