//! Choosing the recipients of a split: explicit addresses, or empty accounts
//! of the wallet. Accounts that an earlier scan found empty are checked
//! again before use, and a bounded window of further indices is scanned for
//! more. The lookups are made by the caller, which feeds each outcome to a
//! search state.

use vstd::prelude::*;
use crate::split::SplitError;
use crate::types::{AccountInfo, Address};
use crate::units::{address_from_text, parse_address};
use std::collections::HashSet;

verus! {

broadcast use vstd::std_specs::hash::group_hash_axioms;

/// Parses every recipient address, or names the first one that does not
/// parse.
pub fn parse_recipient_addresses(addresses: &Vec<String>) -> (r: Result<Vec<Address>, SplitError>)
    ensures
        r is Ok <==> forall|k: int| 0 <= k < addresses.len() ==> (address_from_text(#[trigger] addresses@[k]@) is Some),
        r matches Ok(v) ==> v.len() == addresses.len() && forall|k: int|
            0 <= k < addresses.len() ==> address_from_text(#[trigger] addresses@[k]@) == Some(v@[k]@),
        r matches Err(e) ==> (e matches SplitError::InvalidAddress { address } && exists|k: int|
            0 <= k < addresses.len() && address_from_text(#[trigger] addresses@[k]@) is None
                && address@ == addresses@[k]@ && forall|j: int|
                0 <= j < k ==> address_from_text(#[trigger] addresses@[j]@) is Some),
{
    let mut v: Vec<Address> = Vec::new();
    let mut i: usize = 0;
    while i < addresses.len()
        invariant
            i <= addresses.len(),
            v.len() == i,
            forall|k: int| 0 <= k < i ==> address_from_text(#[trigger] addresses@[k]@) == Some(v@[k]@),
        decreases addresses.len() - i,
    {
        match parse_address(addresses[i].as_str()) {
            Some(a) => {
                v.push(a);
            },
            None => {
                return Err(SplitError::InvalidAddress { address: addresses[i].clone() });
            },
        }
        i = i + 1;
    }
    Ok(v)
}

/// How many indices past its start the receiver scan may go.
pub const RECEIVER_SCAN_WINDOW: u32 = 200;

/// What to do with an account that an earlier scan found empty.
pub enum PreFoundStep {
    /// Enough recipients: stop going through them.
    Stop,
    /// It is the source, or was looked at before: pass over it.
    Skip,
    /// Check its balance and transaction count again.
    Check,
}

/// The state of a search for `needed` empty receiver accounts. Each index
/// it hands out for a lookup is remembered, and only an account at that
/// index can be taken as a receiver.
pub struct ReceiverSearch {
    source_index: u32,
    needed: u32,
    /// Indices already looked at.
    scanned: HashSet<u32>,
    receivers: Vec<AccountInfo>,
    /// The index handed out for the lookup now under way.
    pending: Option<u32>,
    next_index: u32,
    scan_end: u32,
}

impl ReceiverSearch {
    /// The index of the source account, never a receiver.
    pub closed spec fn source(&self) -> u32 {
        self.source_index
    }

    /// How many receivers are wanted.
    pub closed spec fn wanted(&self) -> u32 {
        self.needed
    }

    /// The indices looked at so far.
    pub closed spec fn looked_at(&self) -> Set<u32> {
        self.scanned@
    }

    /// The receivers found so far, in order.
    pub closed spec fn found(&self) -> Seq<AccountInfo> {
        self.receivers@
    }

    /// The index whose account may be offered next, if any.
    pub closed spec fn awaiting(&self) -> Option<u32> {
        self.pending
    }

    /// The next index the scan would consider.
    pub closed spec fn cursor(&self) -> u32 {
        self.next_index
    }

    /// The end (exclusive) of the scan window.
    pub closed spec fn end(&self) -> u32 {
        self.scan_end
    }

    /// What every search keeps: at most `needed` receivers, none of them the
    /// source, each empty and never used, at pairwise distinct indices that
    /// were all looked at; an index awaiting its account was looked at, is
    /// not the source and not yet a receiver, and more receivers are wanted.
    pub open spec fn wf(&self) -> bool {
        &&& self.found().len() <= self.wanted()
        &&& forall|k: int|
            0 <= k < self.found().len() ==> {
                &&& (#[trigger] self.found()[k]).index != self.source()
                &&& self.found()[k].balance == 0
                &&& self.found()[k].nonce == 0
                &&& self.looked_at().contains(self.found()[k].index)
            }
        &&& forall|k: int, l: int|
            0 <= k < l < self.found().len() ==> self.found()[k].index != self.found()[l].index
        &&& self.awaiting() matches Some(p) ==> {
            &&& p != self.source()
            &&& self.looked_at().contains(p)
            &&& forall|k: int| 0 <= k < self.found().len() ==> (#[trigger] self.found()[k]).index != p
            &&& self.found().len() < self.wanted()
        }
    }

    /// A search that scans from `start_index` up to two hundred past it (or
    /// the end of the index type).
    pub fn new(source_index: u32, needed: u32, start_index: u32) -> (r: Self)
        ensures
            r.wf(),
            r.source() == source_index,
            r.wanted() == needed,
            r.looked_at() == Set::<u32>::empty(),
            r.found().len() == 0,
            r.awaiting() is None,
            r.cursor() == start_index,
            r.end() == if start_index as int + 200 > u32::MAX {
                u32::MAX as int
            } else {
                start_index + 200
            },
    {
        let scan_end = if start_index > u32::MAX - RECEIVER_SCAN_WINDOW {
            u32::MAX
        } else {
            start_index + RECEIVER_SCAN_WINDOW
        };
        ReceiverSearch {
            source_index,
            needed,
            scanned: HashSet::new(),
            receivers: Vec::new(),
            pending: None,
            next_index: start_index,
            scan_end,
        }
    }

    /// Enough receivers were found.
    pub fn has_enough(&self) -> (r: bool)
        ensures
            r == (self.found().len() >= self.wanted()),
    {
        self.receivers.len() >= self.needed as usize
    }

    /// The receivers found so far.
    pub fn receivers(&self) -> (r: &Vec<AccountInfo>)
        ensures
            r@ == self.found(),
    {
        &self.receivers
    }

    /// Ends the search with the receivers it found.
    pub fn into_receivers(self) -> (r: Vec<AccountInfo>)
        ensures
            r@ == self.found(),
    {
        self.receivers
    }

    /// The end (exclusive) of the scan window.
    pub fn scan_end(&self) -> (r: u32)
        ensures
            r == self.end(),
    {
        self.scan_end
    }

    /// Takes in the index of an account an earlier scan found empty. Unless
    /// enough receivers are known, the index counts as looked at, and the
    /// account is to be checked again unless it is the source or was looked
    /// at before. Only after `Check` does the index await its account.
    pub fn consider_pre_found(&mut self, index: u32) -> (r: PreFoundStep)
        requires
            old(self).wf(),
        ensures
            final(self).wf(),
            final(self).found() == old(self).found(),
            final(self).source() == old(self).source(),
            final(self).wanted() == old(self).wanted(),
            final(self).cursor() == old(self).cursor(),
            final(self).end() == old(self).end(),
            old(self).found().len() >= old(self).wanted() ==> r is Stop && final(self).looked_at()
                == old(self).looked_at(),
            old(self).found().len() < old(self).wanted() ==> final(self).looked_at()
                == old(self).looked_at().insert(index),
            old(self).found().len() < old(self).wanted() && (index == old(self).source()
                || old(self).looked_at().contains(index)) ==> r is Skip,
            old(self).found().len() < old(self).wanted() && index != old(self).source()
                && !old(self).looked_at().contains(index) ==> r is Check,
            r is Check ==> final(self).awaiting() == Some(index),
            !(r is Check) ==> final(self).awaiting() is None,
    {
        self.pending = None;
        if self.receivers.len() >= self.needed as usize {
            return PreFoundStep::Stop;
        }
        let seen = self.scanned.contains(&index);
        self.scanned.insert(index);
        if index == self.source_index || seen {
            PreFoundStep::Skip
        } else {
            proof {
                assert forall|k: int| 0 <= k < self.receivers@.len() implies (
                #[trigger] self.receivers@[k]).index != index by {
                    if self.receivers@[k].index == index {
                        assert(old(self).scanned@.contains(index));
                    }
                }
            }
            self.pending = Some(index);
            PreFoundStep::Check
        }
    }

    /// Takes in the freshly looked-up account for the index that awaits it:
    /// it becomes a receiver when it is at that index, holds nothing and has
    /// never sent a transaction. Either way no index awaits any more.
    pub fn offer(&mut self, account: AccountInfo) -> (r: bool)
        requires
            old(self).wf(),
        ensures
            final(self).wf(),
            r == (old(self).awaiting() == Some(account.index) && account.balance == 0
                && account.nonce == 0),
            r ==> final(self).found() == old(self).found().push(account),
            !r ==> final(self).found() == old(self).found(),
            final(self).awaiting() is None,
            final(self).looked_at() == old(self).looked_at(),
            final(self).source() == old(self).source(),
            final(self).wanted() == old(self).wanted(),
            final(self).cursor() == old(self).cursor(),
            final(self).end() == old(self).end(),
    {
        let expected = self.pending;
        self.pending = None;
        match expected {
            Some(p) => {
                if p == account.index && account.balance == 0 && account.nonce == 0 {
                    let ghost before = self.receivers@;
                    self.receivers.push(account);
                    proof {
                        assert forall|k: int| 0 <= k < before.len() implies self.receivers@[k]
                            == #[trigger] before[k] by {}
                        assert(self.receivers@[before.len() as int] == account);
                    }
                    true
                } else {
                    false
                }
            },
            None => false,
        }
    }

    /// The next index to derive in the scan window, passing over the source
    /// and the indices looked at before; it then counts as looked at and
    /// awaits its account. `None` once enough receivers are known or the
    /// window is used up.
    pub fn next_scan_index(&mut self) -> (r: Option<u32>)
        requires
            old(self).wf(),
        ensures
            final(self).wf(),
            final(self).found() == old(self).found(),
            final(self).source() == old(self).source(),
            final(self).wanted() == old(self).wanted(),
            final(self).end() == old(self).end(),
            final(self).awaiting() == r,
            old(self).found().len() >= old(self).wanted() ==> r is None && final(self).cursor()
                == old(self).cursor(),
            r is None ==> final(self).looked_at() == old(self).looked_at(),
            r matches Some(i) ==> {
                &&& old(self).found().len() < old(self).wanted()
                &&& old(self).cursor() <= i < old(self).end()
                &&& !passed_over(*old(self), i as int)
                &&& forall|j: int| old(self).cursor() <= j < i ==> passed_over(*old(self), j)
                &&& final(self).cursor() == i + 1
                &&& final(self).looked_at() == old(self).looked_at().insert(i)
            },
            old(self).found().len() < old(self).wanted() && r is None ==> forall|j: int|
                old(self).cursor() <= j < old(self).end() ==> passed_over(*old(self), j),
    {
        self.pending = None;
        if self.receivers.len() >= self.needed as usize {
            return None;
        }
        let ghost start = self.next_index;
        while self.next_index < self.scan_end
            invariant
                start <= self.next_index,
                old(self).receivers.len() < old(self).needed,
                self.pending is None,
                self.scanned == old(self).scanned,
                self.receivers == old(self).receivers,
                self.source_index == old(self).source_index,
                self.needed == old(self).needed,
                self.scan_end == old(self).scan_end,
                start == old(self).next_index,
                self.wf(),
                forall|j: int| start <= j < self.next_index ==> passed_over(*old(self), j),
            decreases self.scan_end - self.next_index,
        {
            let i = self.next_index;
            self.next_index = i + 1;
            if i != self.source_index && !self.scanned.contains(&i) {
                self.scanned.insert(i);
                self.pending = Some(i);
                return Some(i);
            }
        }
        None
    }
}

/// The search passes over `j`: it is the source or was looked at before.
pub open spec fn passed_over(s: ReceiverSearch, j: int) -> bool {
    j == s.source() || s.looked_at().contains(j as u32)
}

/// What a search holds at any point: the receivers are at most as many as
/// wanted, none is the source, each is empty and never used, and no index
/// appears twice among them.
pub proof fn lemma_receivers_fit(s: ReceiverSearch)
    requires
        s.wf(),
    ensures
        s.found().len() <= s.wanted(),
        forall|k: int|
            0 <= k < s.found().len() ==> {
                &&& (#[trigger] s.found()[k]).index != s.source()
                &&& s.found()[k].balance == 0
                &&& s.found()[k].nonce == 0
            },
        forall|k: int, l: int|
            0 <= k < l < s.found().len() ==> s.found()[k].index != s.found()[l].index,
{
}

} // verus!
