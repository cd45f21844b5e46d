//! The mint audit ledger: one immutable record per successful proof-gated
//! mint, keyed by a monotonically increasing identifier.

use vstd::prelude::*;

use crate::records::MintAuditRecord;
use crate::records::MintRecordModel;
use crate::records::clone_bytes;

verus! {

/// Append-only sequence of audit records. A record's identifier is its
/// position; identifiers are assigned in order and never reused.
#[derive(Debug)]
pub struct MintAuditLedger {
    records: Vec<MintAuditRecord>,
}

impl View for MintAuditLedger {
    type V = Seq<MintRecordModel>;

    closed spec fn view(&self) -> Seq<MintRecordModel> {
        self.records@.map_values(|r: MintAuditRecord| r@)
    }
}

impl MintAuditLedger {
    /// An empty ledger.
    pub fn new() -> (l: MintAuditLedger)
        ensures
            l@ == Seq::<MintRecordModel>::empty(),
    {
        let l = MintAuditLedger { records: Vec::new() };
        proof {
            assert(l@ =~= Seq::<MintRecordModel>::empty());
        }
        l
    }

    /// How many records the ledger holds; also the next identifier.
    pub fn record_count(&self) -> (n: u32)
        requires
            self@.len() <= u32::MAX,
        ensures
            n as int == self@.len(),
    {
        self.records.len() as u32
    }

    /// Appends `record`, assigning it the next identifier. Never overwrites.
    pub fn append(&mut self, record: MintAuditRecord) -> (id: u32)
        requires
            old(self)@.len() < u32::MAX,
        ensures
            id as int == old(self)@.len(),
            final(self)@ == old(self)@.push(record@),
    {
        let id = self.records.len() as u32;
        self.records.push(record);
        proof {
            assert(self@ =~= old(self)@.push(record@));
        }
        id
    }

    /// The record with identifier `id`, or `None` when no such record exists.
    pub fn get(&self, id: u32) -> (r: Option<MintAuditRecord>)
        ensures
            match r {
                Some(record) => (id as int) < self@.len() && record@ == self@[id as int],
                None => self@.len() <= id as int,
            },
    {
        if (id as usize) < self.records.len() {
            Some(self.records[id as usize].duplicate())
        } else {
            None
        }
    }

    /// Whether the record with identifier `id` exists and is marked
    /// proof-verified; `false`, not an error, when it does not exist.
    pub fn is_verified(&self, id: u32) -> (r: bool)
        ensures
            r == ((id as int) < self@.len() && self@[id as int].verified),
    {
        if (id as usize) < self.records.len() {
            self.records[id as usize].verified
        } else {
            false
        }
    }

    /// The commitment stored with record `id`, or `None` when no such record
    /// exists.
    pub fn commitment_of(&self, id: u32) -> (r: Option<Vec<u8>>)
        ensures
            match r {
                Some(c) => (id as int) < self@.len() && c@ == self@[id as int].commitment,
                None => self@.len() <= id as int,
            },
    {
        if (id as usize) < self.records.len() {
            Some(clone_bytes(&self.records[id as usize].commitment))
        } else {
            None
        }
    }
}

} // verus!
