//! A store that keeps pending proposals in memory, keyed by target.

use crate::domain::effects::{apply_all, effect_views, Effect};
use crate::domain::models::{opt_proposal, proposal_views, Proposal};
use crate::domain::records::{
    distinct_keys, erase, lemma_erase, lemma_position_is, lemma_upsert, lookup, position, upsert,
    Records,
};
use vstd::prelude::*;
use vstd::string::StringExecFns;

verus! {

/// Pending proposals, at most one for each target key.
pub struct MemoryStore {
    entries: Vec<Proposal>,
}

impl View for MemoryStore {
    type V = Records;

    closed spec fn view(&self) -> Records {
        proposal_views(self.entries@)
    }
}

impl MemoryStore {
    #[verifier::type_invariant]
    spec fn keys_are_distinct(self) -> bool {
        distinct_keys(proposal_views(self.entries@))
    }

    /// A store with nothing pending.
    pub fn new() -> (store: MemoryStore)
        ensures
            store@ == Records::empty(),
            distinct_keys(store@),
    {
        let entries: Vec<Proposal> = Vec::new();
        assert(proposal_views(entries@) =~= Records::empty());
        MemoryStore { entries }
    }

    /// Number of pending proposals.
    pub fn len(&self) -> (n: usize)
        ensures
            n == self@.len(),
            distinct_keys(self@),
    {
        proof {
            use_type_invariant(self);
        }
        self.entries.len()
    }

    /// Index of the entry stored under `key`, or the length.
    fn find(&self, key: &String) -> (at: usize)
        ensures
            at == position(self@, key@),
            at <= self.entries.len(),
    {
        let mut at: usize = 0;
        while at < self.entries.len()
            invariant
                at <= self.entries.len(),
                forall|i: int| 0 <= i < at ==> (#[trigger] self@[i]).key() != key@,
            decreases self.entries.len() - at,
        {
            if self.entries[at].target.raw == *key {
                proof {
                    assert(self@[at as int].key() == key@);
                    lemma_position_is(self@, key@, at as int);
                }
                return at;
            }
            at = at + 1;
        }
        proof {
            lemma_position_is(self@, key@, at as int);
        }
        at
    }

    /// Stores `proposal` under its target key, replacing what was there.
    pub fn save(&mut self, proposal: Proposal)
        ensures
            final(self)@ == upsert(old(self)@, proposal@),
            distinct_keys(final(self)@),
    {
        proof {
            use_type_invariant(&*self);
            lemma_upsert(self@, proposal@);
        }
        let key = proposal.target.raw.clone();
        let at = self.find(&key);
        let ghost before = self@;
        let mut entries: Vec<Proposal> = Vec::new();
        assert(proposal_views(entries@) =~= Records::empty());
        core::mem::swap(&mut self.entries, &mut entries);
        if at < entries.len() {
            entries.set(at, proposal);
            assert(proposal_views(entries@) =~= before.update(at as int, proposal@));
        } else {
            entries.push(proposal);
            assert(proposal_views(entries@) =~= before.push(proposal@));
        }
        self.entries = entries;
    }

    /// The proposal stored under `key`, if any.
    pub fn get(&self, key: &str) -> (found: Option<Proposal>)
        ensures
            opt_proposal(found) == lookup(self@, key@),
            distinct_keys(self@),
    {
        proof {
            use_type_invariant(self);
        }
        let key = String::from_str(key);
        let at = self.find(&key);
        if at < self.entries.len() {
            Some(self.entries[at].clone())
        } else {
            None
        }
    }

    /// Forgets the proposal stored under `key`; does nothing when there is
    /// none.
    pub fn remove(&mut self, key: &str)
        ensures
            final(self)@ == erase(old(self)@, key@),
            distinct_keys(final(self)@),
    {
        proof {
            use_type_invariant(&*self);
            lemma_erase(self@, key@);
        }
        let key = String::from_str(key);
        let at = self.find(&key);
        let ghost before = self@;
        let mut entries: Vec<Proposal> = Vec::new();
        assert(proposal_views(entries@) =~= Records::empty());
        core::mem::swap(&mut self.entries, &mut entries);
        if at < entries.len() {
            let _ = entries.remove(at);
            assert(proposal_views(entries@) =~= before.remove(at as int));
        }
        self.entries = entries;
    }

    /// Carries out the store effects of `effects`, first to last.
    pub fn apply(&mut self, effects: &Vec<Effect>)
        ensures
            final(self)@ == apply_all(old(self)@, effect_views(effects@)),
            distinct_keys(final(self)@),
    {
        let ghost all = effect_views(effects@);
        let mut i: usize = 0;
        assert(all.skip(0) =~= all);
        while i < effects.len()
            invariant
                i <= effects.len(),
                all == effect_views(effects@),
                apply_all(self@, all.skip(i as int)) == apply_all(old(self)@, all),
            decreases effects.len() - i,
        {
            proof {
                assert(all.skip(i as int)[0] == effects@[i as int]@);
                assert(all.skip(i as int).skip(1) =~= all.skip(i + 1));
            }
            match &effects[i] {
                Effect::Save(p) => {
                    self.save(p.clone());
                },
                Effect::Remove(key) => {
                    self.remove(key.as_str());
                },
                _ => {},
            }
            i = i + 1;
        }
        proof {
            use_type_invariant(&*self);
        }
    }

    /// Every pending proposal, oldest entry first.
    pub fn list(&self) -> (all: Vec<Proposal>)
        ensures
            proposal_views(all@) == self@,
            distinct_keys(self@),
    {
        proof {
            use_type_invariant(self);
        }
        let mut all: Vec<Proposal> = Vec::new();
        let mut i: usize = 0;
        while i < self.entries.len()
            invariant
                i <= self.entries.len(),
                proposal_views(all@) == self@.take(i as int),
            decreases self.entries.len() - i,
        {
            let ghost before = proposal_views(all@);
            let copy = self.entries[i].clone();
            all.push(copy);
            assert(proposal_views(all@) =~= before.push(copy@));
            assert(self@.take(i + 1) =~= self@.take(i as int).push(self@[i as int]));
            i = i + 1;
        }
        assert(self@.take(self.entries.len() as int) =~= self@);
        all
    }
}

} // verus!
