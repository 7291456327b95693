//! Address scanning: stepping through derivation indices, sorting accounts
//! into funded and empty, and stopping on a streak of empty accounts. The
//! derivation and balance lookups are made by the caller, which feeds each
//! outcome to a scan state and asks it whether to go on.

use vstd::prelude::*;
use vstd::string::*;
use crate::text::{decimal, push_decimal};
use crate::types::Address;
use crate::units::{address_text, ether_text, format_ether, hex_of};

verus! {

/// One scanned account. The balance is in wei.
pub struct BalanceScanRecord {
    pub index: u32,
    pub address: Address,
    pub balance: u128,
    pub derivation_path: String,
}

impl Clone for BalanceScanRecord {
    fn clone(&self) -> (r: Self)
        ensures
            r == *self,
    {
        BalanceScanRecord {
            index: self.index,
            address: self.address,
            balance: self.balance,
            derivation_path: self.derivation_path.clone(),
        }
    }
}

/// The result of a scan for a streak of empty accounts.
pub struct BalanceScanResult {
    /// Every account scanned, in order.
    pub records: Vec<BalanceScanRecord>,
    /// The run of empty accounts at the end of the scan.
    pub empty_addresses: Vec<(u32, Address)>,
    pub last_scanned_index: u32,
    /// The streak reached its target.
    pub met_target: bool,
    /// The scan was stopped by the user or by a failed lookup.
    pub cancelled: bool,
}

/// A record's line: derivation path, address and balance in ether.
pub open spec fn record_line(r: BalanceScanRecord) -> Seq<char> {
    r.derivation_path@ + ": "@ + "0x"@ + hex_of(r.address@) + " - "@ + ether_text(r.balance as nat)
        + " ETH"@
}

impl BalanceScanResult {
    /// One line about the outcome of the scan.
    pub fn summary(&self) -> (r: String)
        ensures
            self.cancelled ==> r@ == "Scan cancelled."@,
            !self.cancelled && self.met_target ==> r@ == "Found "@ + decimal(
                self.empty_addresses.len() as nat,
            ) + " consecutive empty addresses (target met). Scanned up to index "@ + decimal(
                self.last_scanned_index as nat,
            ) + "."@,
            !self.cancelled && !self.met_target ==> r@ == "Found "@ + decimal(
                self.empty_addresses.len() as nat,
            ) + " consecutive empty addresses. Scanned up to index "@ + decimal(
                self.last_scanned_index as nat,
            ) + "."@,
    {
        if self.cancelled {
            return String::from_str("Scan cancelled.");
        }
        let mut r = String::from_str("Found ");
        push_decimal(&mut r, self.empty_addresses.len() as u128);
        if self.met_target {
            r.append(" consecutive empty addresses (target met). Scanned up to index ");
        } else {
            r.append(" consecutive empty addresses. Scanned up to index ");
        }
        push_decimal(&mut r, self.last_scanned_index as u128);
        r.append(".");
        r
    }

    /// One line per scanned account.
    pub fn formatted_records(&self) -> (r: Vec<String>)
        ensures
            r.len() == self.records.len(),
            forall|j: int| 0 <= j < r.len() ==> (#[trigger] r@[j])@ == record_line(self.records@[j]),
    {
        let mut r: Vec<String> = Vec::new();
        let mut i: usize = 0;
        while i < self.records.len()
            invariant
                i <= self.records.len(),
                r.len() == i,
                forall|j: int| 0 <= j < i ==> (#[trigger] r@[j])@ == record_line(self.records@[j]),
            decreases self.records.len() - i,
        {
            let rec = &self.records[i];
            let mut line = rec.derivation_path.clone();
            line.append(": ");
            let addr = address_text(&rec.address);
            line.append(addr.as_str());
            line.append(" - ");
            let ether = format_ether(rec.balance);
            line.append(ether.as_str());
            line.append(" ETH");
            proof {
                assert(line@ =~= record_line(self.records@[i as int]));
            }
            r.push(line);
            i = i + 1;
        }
        r
    }
}

/// The accounts of a bounded scan for funded accounts.
pub struct FundedAddressScan {
    pub funded: Vec<BalanceScanRecord>,
    pub empty: Vec<BalanceScanRecord>,
}

/// Progress of a streak scan, in the order of events.
pub enum ScanProgress {
    AddressFound(BalanceScanRecord),
    Completed(BalanceScanResult),
}

/// Progress of a funded-account scan, in the order of events.
pub enum FundedScanProgress {
    AddressFound(BalanceScanRecord),
    Completed(FundedAddressScan),
}

/// The state of a scan that stops once `empty_target` empty accounts come
/// in a row. A funded account resets the streak; a failed lookup or a
/// cancellation stops the scan and marks it cancelled, keeping what was
/// found. There is no upper bound on the index other than the index type.
pub struct ConsecutiveEmptyScan {
    pub empty_target: u32,
    pub consecutive_empty: u32,
    pub next_index: u32,
    pub last_scanned_index: u32,
    pub records: Vec<BalanceScanRecord>,
    pub empty_sequence: Vec<(u32, Address)>,
    pub cancelled: bool,
    /// The index type ran out.
    pub exhausted: bool,
}

impl ConsecutiveEmptyScan {
    /// The streak is the run of empty accounts at the end of the records.
    pub open spec fn wf(&self) -> bool {
        &&& self.consecutive_empty == self.empty_sequence.len()
        &&& self.empty_sequence.len() <= self.records.len()
        &&& forall|j: int|
            0 <= j < self.empty_sequence.len() ==> {
                let rec = #[trigger] self.records@[self.records.len() - self.empty_sequence.len() + j];
                &&& rec.balance == 0
                &&& self.empty_sequence@[j] == (rec.index, rec.address)
            }
    }

    /// A scan from `start_index`.
    pub fn new(start_index: u32, empty_target: u32) -> (r: Self)
        ensures
            r.wf(),
            r.empty_target == empty_target,
            r.next_index == start_index,
            r.last_scanned_index == if start_index == 0 {
                0
            } else {
                start_index - 1
            },
            r.records.len() == 0,
            !r.cancelled,
            !r.exhausted,
    {
        ConsecutiveEmptyScan {
            empty_target,
            consecutive_empty: 0,
            next_index: start_index,
            last_scanned_index: if start_index == 0 {
                0
            } else {
                start_index - 1
            },
            records: Vec::new(),
            empty_sequence: Vec::new(),
            cancelled: false,
            exhausted: false,
        }
    }

    /// Whether another index is to be scanned.
    pub fn wants_next(&self) -> (r: bool)
        ensures
            r == (!self.cancelled && !self.exhausted && self.consecutive_empty < self.empty_target),
    {
        !self.cancelled && !self.exhausted && self.consecutive_empty < self.empty_target
    }

    /// Stops the scan: the user cancelled, or a lookup failed.
    pub fn cancel(&mut self)
        ensures
            final(self).cancelled,
            final(self).records == old(self).records,
            final(self).empty_sequence == old(self).empty_sequence,
            final(self).consecutive_empty == old(self).consecutive_empty,
            final(self).empty_target == old(self).empty_target,
            final(self).next_index == old(self).next_index,
            final(self).last_scanned_index == old(self).last_scanned_index,
            final(self).exhausted == old(self).exhausted,
    {
        self.cancelled = true;
    }

    /// Takes in the account at `next_index` and returns its record: an empty
    /// account lengthens the streak, a funded one resets it.
    pub fn record(&mut self, address: Address, balance: u128, derivation_path: String) -> (r:
        BalanceScanRecord)
        requires
            old(self).wf(),
            old(self).records.len() < usize::MAX,
            old(self).consecutive_empty < u32::MAX,
        ensures
            final(self).wf(),
            r == (BalanceScanRecord { index: old(self).next_index, address, balance, derivation_path }),
            final(self).records@ == old(self).records@.push(r),
            final(self).last_scanned_index == old(self).next_index,
            balance == 0 ==> final(self).consecutive_empty == old(self).consecutive_empty + 1,
            balance == 0 ==> final(self).empty_sequence@ == old(self).empty_sequence@.push(
                (old(self).next_index, address),
            ),
            balance != 0 ==> final(self).consecutive_empty == 0,
            old(self).next_index < u32::MAX ==> final(self).next_index == old(self).next_index + 1
                && final(self).exhausted == old(self).exhausted,
            old(self).next_index == u32::MAX ==> final(self).exhausted,
            final(self).empty_target == old(self).empty_target,
            final(self).cancelled == old(self).cancelled,
    {
        let index = self.next_index;
        let rec = BalanceScanRecord { index, address, balance, derivation_path };
        let out = rec.clone();
        let ghost old_records = self.records@;
        let ghost old_empty = self.empty_sequence@;
        self.records.push(rec);
        self.last_scanned_index = index;
        if balance == 0 {
            self.consecutive_empty = self.consecutive_empty + 1;
            self.empty_sequence.push((index, address));
            proof {
                let n = self.records.len() as int;
                let e = self.empty_sequence.len() as int;
                assert forall|j: int| 0 <= j < e implies {
                    let rec = #[trigger] self.records@[n - e + j];
                    &&& rec.balance == 0
                    &&& self.empty_sequence@[j] == (rec.index, rec.address)
                } by {
                    if j < e - 1 {
                        assert(self.records@[n - e + j] == old_records[(n - 1) - (e - 1) + j]);
                        assert(self.empty_sequence@[j] == old_empty[j]);
                    }
                }
            }
        } else {
            self.consecutive_empty = 0;
            self.empty_sequence = Vec::new();
        }
        if index < u32::MAX {
            self.next_index = index + 1;
        } else {
            self.exhausted = true;
        }
        out
    }

    /// The result of the scan.
    pub fn finish(self) -> (r: BalanceScanResult)
        ensures
            r.records == self.records,
            r.empty_addresses == self.empty_sequence,
            r.last_scanned_index == self.last_scanned_index,
            r.met_target == (self.consecutive_empty >= self.empty_target),
            r.cancelled == self.cancelled,
    {
        let met_target = self.consecutive_empty >= self.empty_target;
        BalanceScanResult {
            records: self.records,
            empty_addresses: self.empty_sequence,
            last_scanned_index: self.last_scanned_index,
            met_target,
            cancelled: self.cancelled,
        }
    }
}

/// How far past its start a funded-account scan may go.
pub const FUNDED_SCAN_WINDOW: u32 = 50;

/// The state of a bounded scan for usable source accounts: it stops on a
/// streak of `empty_streak_target` empty accounts, at the end of a window of
/// fifty indices, on a failed lookup, or when cancelled.
pub struct FundedScan {
    pub empty_streak_target: u32,
    pub consecutive_empty: u32,
    pub next_index: u32,
    pub scan_limit: u32,
    pub funded: Vec<BalanceScanRecord>,
    pub empty: Vec<BalanceScanRecord>,
    pub stopped: bool,
}

impl FundedScan {
    /// A scan of the indices from `start_index` up to fifty past it (or the
    /// end of the index type).
    pub fn new(start_index: u32, empty_streak_target: u32) -> (r: Self)
        ensures
            r.empty_streak_target == empty_streak_target,
            r.next_index == start_index,
            r.scan_limit == if start_index as int + 50 > u32::MAX {
                u32::MAX as int
            } else {
                start_index + 50
            },
            r.consecutive_empty == 0,
            r.funded.len() == 0,
            r.empty.len() == 0,
            !r.stopped,
    {
        let scan_limit = if start_index > u32::MAX - FUNDED_SCAN_WINDOW {
            u32::MAX
        } else {
            start_index + FUNDED_SCAN_WINDOW
        };
        FundedScan {
            empty_streak_target,
            consecutive_empty: 0,
            next_index: start_index,
            scan_limit,
            funded: Vec::new(),
            empty: Vec::new(),
            stopped: false,
        }
    }

    /// Whether another index is to be scanned.
    pub fn wants_next(&self) -> (r: bool)
        ensures
            r == (!self.stopped && self.next_index < self.scan_limit && self.consecutive_empty
                < self.empty_streak_target),
    {
        !self.stopped && self.next_index < self.scan_limit && self.consecutive_empty
            < self.empty_streak_target
    }

    /// Stops the scan: the user cancelled, or a lookup failed.
    pub fn stop(&mut self)
        ensures
            final(self).stopped,
            final(self).funded == old(self).funded,
            final(self).empty == old(self).empty,
            final(self).next_index == old(self).next_index,
            final(self).scan_limit == old(self).scan_limit,
            final(self).consecutive_empty == old(self).consecutive_empty,
            final(self).empty_streak_target == old(self).empty_streak_target,
    {
        self.stopped = true;
    }

    /// Takes in the account at `next_index` and returns its record: an empty
    /// account goes to `empty` and lengthens the streak, a funded one goes
    /// to `funded` and resets it.
    pub fn record(&mut self, address: Address, balance: u128, derivation_path: String) -> (r:
        BalanceScanRecord)
        requires
            old(self).next_index < old(self).scan_limit,
            old(self).consecutive_empty < old(self).empty_streak_target,
        ensures
            r == (BalanceScanRecord { index: old(self).next_index, address, balance, derivation_path }),
            final(self).next_index == old(self).next_index + 1,
            final(self).scan_limit == old(self).scan_limit,
            final(self).empty_streak_target == old(self).empty_streak_target,
            final(self).stopped == old(self).stopped,
            balance == 0 ==> final(self).empty@ == old(self).empty@.push(r) && final(self).funded
                == old(self).funded && final(self).consecutive_empty == old(self).consecutive_empty
                + 1,
            balance != 0 ==> final(self).funded@ == old(self).funded@.push(r) && final(self).empty
                == old(self).empty && final(self).consecutive_empty == 0,
    {
        let index = self.next_index;
        let rec = BalanceScanRecord { index, address, balance, derivation_path };
        let out = rec.clone();
        if balance == 0 {
            self.consecutive_empty = self.consecutive_empty + 1;
            self.empty.push(rec);
        } else {
            self.consecutive_empty = 0;
            self.funded.push(rec);
        }
        self.next_index = index + 1;
        out
    }

    /// The accounts found.
    pub fn finish(self) -> (r: FundedAddressScan)
        ensures
            r.funded == self.funded,
            r.empty == self.empty,
    {
        FundedAddressScan { funded: self.funded, empty: self.empty }
    }
}

} // verus!
