//! The anti-replay store: which proof fingerprints have been consumed, and
//! when. Existence of an entry is the sole truth source for replay rejection.

use vstd::prelude::*;

use crate::errors::Error;
use crate::records::ProofUsageRecord;
use crate::records::UsageModel;
use crate::records::bytes_eq;
use crate::records::clone_bytes;

verus! {

/// True when some entry carries the fingerprint `fp`.
pub open spec fn fp_used(entries: Seq<UsageModel>, fp: Seq<u8>) -> bool {
    exists|i: int| 0 <= i < entries.len() && entries[i].fingerprint == fp
}

/// True when no two entries carry the same fingerprint.
pub open spec fn fingerprints_distinct(entries: Seq<UsageModel>) -> bool {
    forall|i: int, j: int|
        0 <= i < j < entries.len() ==> entries[i].fingerprint != entries[j].fingerprint
}

/// Durable mapping from proof fingerprint to first-use time. Entries are
/// inserted once and never updated or deleted.
#[derive(Debug)]
pub struct ProofRecordStore {
    entries: Vec<ProofUsageRecord>,
}

impl View for ProofRecordStore {
    type V = Seq<UsageModel>;

    closed spec fn view(&self) -> Seq<UsageModel> {
        self.entries@.map_values(|e: ProofUsageRecord| e@)
    }
}

impl ProofRecordStore {
    /// An empty store: no fingerprint is used yet.
    pub fn new() -> (s: ProofRecordStore)
        ensures
            s@ == Seq::<UsageModel>::empty(),
    {
        let s = ProofRecordStore { entries: Vec::new() };
        proof {
            assert(s@ =~= Seq::<UsageModel>::empty());
        }
        s
    }

    /// Pure replay query: has `fp` been consumed? No side effect.
    pub fn is_used(&self, fp: &Vec<u8>) -> (r: bool)
        ensures
            r == fp_used(self@, fp@),
    {
        let n = self.entries.len();
        let mut i: usize = 0;
        while i < n
            invariant
                n == self.entries@.len(),
                self@ == self.entries@.map_values(|e: ProofUsageRecord| e@),
                0 <= i <= n,
                forall|k: int| 0 <= k < i ==> self@[k].fingerprint != fp@,
            decreases n - i,
        {
            if bytes_eq(&self.entries[i].fingerprint, fp) {
                proof {
                    assert(self@[i as int].fingerprint == fp@);
                }
                return true;
            }
            i = i + 1;
        }
        false
    }

    /// When was `fp` first consumed? `None` exactly when it never was.
    pub fn usage_timestamp(&self, fp: &Vec<u8>) -> (r: Option<u64>)
        ensures
            r is Some <==> fp_used(self@, fp@),
            r matches Some(t) ==> exists|i: int|
                0 <= i < self@.len() && self@[i].fingerprint == fp@ && self@[i].first_used_at
                    == t,
    {
        let n = self.entries.len();
        let mut i: usize = 0;
        while i < n
            invariant
                n == self.entries@.len(),
                self@ == self.entries@.map_values(|e: ProofUsageRecord| e@),
                0 <= i <= n,
                forall|k: int| 0 <= k < i ==> self@[k].fingerprint != fp@,
            decreases n - i,
        {
            if bytes_eq(&self.entries[i].fingerprint, fp) {
                proof {
                    assert(self@[i as int].fingerprint == fp@);
                }
                return Some(self.entries[i].first_used_at);
            }
            i = i + 1;
        }
        None
    }

    /// Marks `fp` as consumed at time `at`. Fails, and changes nothing, if a
    /// prior call already marked the same fingerprint.
    pub fn mark_used(&mut self, fp: &Vec<u8>, at: u64) -> (r: Result<(), Error>)
        ensures
            match r {
                Ok(()) => !fp_used(old(self)@, fp@) && final(self)@ == old(self)@.push(
                    (UsageModel { fingerprint: fp@, first_used_at: at }),
                ),
                Err(e) => e == Error::ProofAlreadyUsed && fp_used(old(self)@, fp@) && final(self)@
                    == old(self)@,
            },
    {
        if self.is_used(fp) {
            return Err(Error::ProofAlreadyUsed);
        }
        self.entries.push(ProofUsageRecord { fingerprint: clone_bytes(fp), first_used_at: at });
        proof {
            assert(self@ =~= old(self)@.push(
                UsageModel { fingerprint: fp@, first_used_at: at },
            ));
        }
        Ok(())
    }
}

} // verus!
