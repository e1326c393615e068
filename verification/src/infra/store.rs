//! Reading a durable store: what to make of the records that came back.
//!
//! Bytes are decoded outside this crate. A record that did not decode is
//! treated as absent and is to be purged; it never fails the read.

use crate::domain::models::{opt_proposal, proposal_views, Proposal, ProposalView};
use vstd::prelude::*;

verus! {

/// What a [`Record`] stands for.
pub struct RecordView {
    pub key: Seq<u8>,
    pub proposal: Option<ProposalView>,
}

/// One record as read from durable storage: the key it sits under and,
/// where its bytes decoded, the proposal.
#[derive(Debug, PartialEq, Eq)]
pub struct Record {
    pub key: Vec<u8>,
    pub proposal: Option<Proposal>,
}

impl View for Record {
    type V = RecordView;

    open spec fn view(&self) -> RecordView {
        RecordView { key: self.key@, proposal: opt_proposal(self.proposal) }
    }
}

/// Views of a list of records, element by element.
pub open spec fn record_views(values: Seq<Record>) -> Seq<RecordView> {
    Seq::new(values.len(), |i: int| values[i]@)
}

/// Views of a list of keys, element by element.
pub open spec fn key_views(values: Seq<Vec<u8>>) -> Seq<Seq<u8>> {
    Seq::new(values.len(), |i: int| values[i]@)
}

/// The proposals among `records`, in the order read.
pub open spec fn readable(records: Seq<RecordView>) -> Seq<ProposalView>
    decreases records.len(),
{
    if records.len() == 0 {
        Seq::empty()
    } else {
        match records.last().proposal {
            Some(p) => readable(records.drop_last()).push(p),
            None => readable(records.drop_last()),
        }
    }
}

/// The keys of the records that did not decode, in the order read.
pub open spec fn corrupt(records: Seq<RecordView>) -> Seq<Seq<u8>>
    decreases records.len(),
{
    if records.len() == 0 {
        Seq::empty()
    } else {
        match records.last().proposal {
            Some(_) => corrupt(records.drop_last()),
            None => corrupt(records.drop_last()).push(records.last().key),
        }
    }
}

/// The outcome of a read: what to hand to the engine, and what to purge.
#[derive(Debug, PartialEq, Eq)]
pub struct Scan {
    /// The proposals that could be read.
    pub proposals: Vec<Proposal>,
    /// Keys whose records are corrupt and are to be deleted.
    pub purge: Vec<Vec<u8>>,
}

/// Every record is accounted for: it is handed on or it is purged.
pub proof fn lemma_sift_accounts_for_all(records: Seq<RecordView>)
    ensures
        readable(records).len() + corrupt(records).len() == records.len(),
    decreases records.len(),
{
    if records.len() > 0 {
        lemma_sift_accounts_for_all(records.drop_last());
    }
}

/// Sorts what a read returned: proposals that decoded are handed on in
/// order, and the keys of the others are listed for purging.
pub fn sift(records: &Vec<Record>) -> (scan: Scan)
    ensures
        proposal_views(scan.proposals@) == readable(record_views(records@)),
        key_views(scan.purge@) == corrupt(record_views(records@)),
{
    let ghost all = record_views(records@);
    let mut proposals: Vec<Proposal> = Vec::new();
    let mut purge: Vec<Vec<u8>> = Vec::new();
    let mut i: usize = 0;
    assert(all.take(0) =~= Seq::<RecordView>::empty());
    assert(proposal_views(proposals@) =~= Seq::<ProposalView>::empty());
    assert(key_views(purge@) =~= Seq::<Seq<u8>>::empty());
    while i < records.len()
        invariant
            i <= records.len(),
            all == record_views(records@),
            proposal_views(proposals@) == readable(all.take(i as int)),
            key_views(purge@) == corrupt(all.take(i as int)),
        decreases records.len() - i,
    {
        let ghost kept = proposal_views(proposals@);
        let ghost gone = key_views(purge@);
        proof {
            assert(all.take(i + 1).drop_last() =~= all.take(i as int));
            assert(all.take(i + 1).last() == records@[i as int]@);
        }
        match &records[i].proposal {
            Some(p) => {
                let copy = p.clone();
                proposals.push(copy);
                assert(proposal_views(proposals@) =~= kept.push(copy@));
            },
            None => {
                let key = records[i].key.clone();
                purge.push(key);
                assert(key_views(purge@) =~= gone.push(key@));
            },
        }
        i = i + 1;
    }
    assert(all.take(records.len() as int) =~= all);
    Scan { proposals, purge }
}

} // verus!
