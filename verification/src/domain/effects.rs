//! Effects: the steps of a transition, as data.

use crate::domain::models::{Proposal, ProposalView, Text};
use crate::domain::records::{erase, upsert, Records};
use vstd::prelude::*;

verus! {

/// What an [`Effect`] stands for.
pub enum EffectView {
    Save(ProposalView),
    Remove(Text),
    Notify(ProposalView),
    Execute(ProposalView, Text),
    Discard(ProposalView, Text),
}

/// One step of a transition, for the surrounding process to carry out.
///
/// Effects are carried out in the order given. A store effect that fails
/// ends the transition: the effects after it are dropped. A driver effect
/// goes to every registered driver, and its failure ends nothing.
#[derive(Debug, PartialEq, Eq)]
pub enum Effect {
    /// Write the proposal to the store under its target key, durably.
    Save(Proposal),
    /// Delete the key from the store.
    Remove(String),
    /// Show every driver the new proposal.
    Notify(Proposal),
    /// Have every driver perform the action; the string is the approver
    /// who completed the quorum.
    Execute(Proposal, String),
    /// Tell every driver that the proposal is gone; the string says why.
    Discard(Proposal, String),
}

impl View for Effect {
    type V = EffectView;

    open spec fn view(&self) -> EffectView {
        match *self {
            Effect::Save(p) => EffectView::Save(p@),
            Effect::Remove(key) => EffectView::Remove(key@),
            Effect::Notify(p) => EffectView::Notify(p@),
            Effect::Execute(p, approver) => EffectView::Execute(p@, approver@),
            Effect::Discard(p, why) => EffectView::Discard(p@, why@),
        }
    }
}

/// Views of a list of effects, element by element.
pub open spec fn effect_views(values: Seq<Effect>) -> Seq<EffectView> {
    Seq::new(values.len(), |i: int| values[i]@)
}

/// `records` after one effect; driver effects leave the store alone.
pub open spec fn apply(records: Records, effect: EffectView) -> Records {
    match effect {
        EffectView::Save(p) => upsert(records, p),
        EffectView::Remove(key) => erase(records, key),
        _ => records,
    }
}

/// `records` after every effect of `effects`, first to last.
pub open spec fn apply_all(records: Records, effects: Seq<EffectView>) -> Records
    decreases effects.len(),
{
    if effects.len() == 0 {
        records
    } else {
        apply_all(apply(records, effects[0]), effects.skip(1))
    }
}

/// Carrying out `first` and then `second` is carrying out both in a row.
pub proof fn lemma_apply_all_concat(records: Records, first: Seq<EffectView>, second: Seq<EffectView>)
    ensures
        apply_all(records, first + second) == apply_all(apply_all(records, first), second),
    decreases first.len(),
{
    if first.len() == 0 {
        assert(first + second =~= second);
    } else {
        assert((first + second)[0] == first[0]);
        assert((first + second).skip(1) =~= first.skip(1) + second);
        lemma_apply_all_concat(apply(records, first[0]), first.skip(1), second);
    }
}

} // verus!
