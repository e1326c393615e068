//! The consensus engine: from one event, and what the store holds, to the
//! effects that carry the transition out.

use crate::config::AppConfig;
use crate::domain::effects::{apply_all, effect_views, Effect, EffectView};
use crate::domain::identity::{resolve, resolve_spec};
use crate::domain::models::{
    opt_proposal, opt_text, proposal_views, texts, Event, EventView, Platform, Proposal,
    ProposalView, Text,
};
use crate::domain::records::{distinct_keys, lookup, Records};
use crate::infra::memory::MemoryStore;
use crate::text::has_text;
use vstd::prelude::*;
use vstd::string::StringExecFns;

verus! {

/// Why the engine turned an event down.
#[derive(Debug, Clone, Copy, PartialEq, Eq, Structural)]
pub enum CoreError {
    /// The approver is the author of the proposal.
    SelfApproval,
}

impl CoreError {
    /// The error in words.
    pub fn message(&self) -> (text: String)
        ensures
            text@ == "Self-approval rejected."@,
    {
        String::from_str("Self-approval rejected.")
    }
}

/// The proposal that a Propose event creates at time `now`.
pub open spec fn fresh_proposal(
    action: Text,
    target: Text,
    author: Text,
    origin: Platform,
    channel: Text,
    reason: Text,
    now: u64,
) -> ProposalView {
    ProposalView {
        target: resolve_spec(target, origin),
        action,
        reason,
        author,
        origin,
        channel,
        approvers: Seq::empty(),
        timestamp: now,
    }
}

/// Effects of a Propose event: save the new proposal, then notify.
pub open spec fn propose_plan(p: ProposalView) -> Seq<EffectView> {
    seq![EffectView::Save(p), EffectView::Notify(p)]
}

/// Effects of an Approve event, given what the store holds for `target`.
pub open spec fn approve_plan(
    found: Option<ProposalView>,
    target: Text,
    approver: Text,
    required: nat,
) -> Result<Seq<EffectView>, CoreError> {
    match found {
        None => Ok(Seq::empty()),
        Some(p) => if p.author == approver {
            Err(CoreError::SelfApproval)
        } else {
            let counted = p.with_approver(approver);
            if counted.approvers.len() >= required {
                Ok(seq![EffectView::Execute(counted, approver), EffectView::Remove(target)])
            } else {
                Ok(seq![EffectView::Save(counted)])
            }
        },
    }
}

/// The reason given to drivers when `author` cancels.
pub open spec fn cancel_reason(author: Text) -> Text {
    "Cancelled by "@ + author
}

/// The reason given to drivers when a proposal expires.
pub open spec fn expiry_reason() -> Text {
    "Expired"@
}

/// Effects of a Cancel event, given what the store holds for `target`.
pub open spec fn cancel_plan(found: Option<ProposalView>, target: Text, author: Text) -> Seq<
    EffectView,
> {
    match found {
        None => Seq::empty(),
        Some(p) => seq![EffectView::Discard(p, cancel_reason(author)), EffectView::Remove(target)],
    }
}

/// Effects of a sweep on one proposal.
pub open spec fn sweep_one(p: ProposalView, now: u64, expiry: u64) -> Seq<EffectView> {
    if p.expired(now, expiry) {
        seq![EffectView::Discard(p, expiry_reason()), EffectView::Remove(p.key())]
    } else {
        Seq::empty()
    }
}

/// Effects of a Sweep event, given every pending proposal: each expired
/// one is discarded and removed, in the order listed.
pub open spec fn sweep_plan(pending: Seq<ProposalView>, now: u64, expiry: u64) -> Seq<EffectView>
    decreases pending.len(),
{
    if pending.len() == 0 {
        Seq::empty()
    } else {
        sweep_plan(pending.drop_last(), now, expiry) + sweep_one(pending.last(), now, expiry)
    }
}

/// What has to be read before an event can be decided on.
#[derive(Debug, PartialEq, Eq)]
pub struct Needs {
    /// The key whose proposal is to be fetched from the store, if any.
    pub key: Option<String>,
    /// Whether every pending proposal is to be listed.
    pub listing: bool,
    /// Whether the time is to be read.
    pub clock: bool,
}

/// The key whose proposal an event is decided on: the target of an
/// approval or a cancellation.
pub open spec fn key_of(event: EventView) -> Option<Text> {
    match event {
        EventView::Approve { target, .. } => Some(target),
        EventView::Cancel { target, .. } => Some(target),
        _ => None,
    }
}

/// What the store holds for the key of `event`, if it has one.
pub open spec fn found_for(records: Records, event: EventView) -> Option<ProposalView> {
    match key_of(event) {
        Some(key) => lookup(records, key),
        None => None,
    }
}

/// Effects of `event` at time `now`, given what the store holds under the
/// event's key and every pending proposal. An approval or a cancellation
/// looks at `found` only, a sweep at `pending` only, a proposal at
/// neither.
pub open spec fn decide_spec(
    event: EventView,
    found: Option<ProposalView>,
    pending: Seq<ProposalView>,
    now: u64,
    required: nat,
    expiry: u64,
) -> Result<Seq<EffectView>, CoreError> {
    match event {
        EventView::Propose { action, target, author, origin, channel, reason } => Ok(
            propose_plan(fresh_proposal(action, target, author, origin, channel, reason, now)),
        ),
        EventView::Approve { target, approver } => approve_plan(found, target, approver, required),
        EventView::Cancel { target, author } => Ok(cancel_plan(found, target, author)),
        EventView::Sweep => Ok(sweep_plan(pending, now, expiry)),
    }
}

/// Effects of `event` at time `now` on a store that holds `records`.
pub open spec fn plan(records: Records, event: EventView, now: u64, required: nat, expiry: u64)
    -> Result<Seq<EffectView>, CoreError> {
    decide_spec(event, found_for(records, event), records, now, required, expiry)
}

/// `records` after `event` has been handled at time `now`: the store is
/// untouched when the event is turned down.
pub open spec fn step(records: Records, event: EventView, now: u64, required: nat, expiry: u64)
    -> Records {
    match plan(records, event, now, required, expiry) {
        Ok(effects) => apply_all(records, effects),
        Err(_) => records,
    }
}

/// The engine. It holds the configuration and nothing else: pending
/// proposals live in the store, and are read anew for every event.
pub struct Core {
    pub config: AppConfig,
}

impl Core {
    /// An engine that decides by `config`.
    pub fn new(config: AppConfig) -> (core: Core)
        ensures
            core.config == config,
    {
        Core { config }
    }

    /// Number of approvers at which a proposal is executed.
    pub open spec fn required(&self) -> nat {
        self.config.required_approvals as nat
    }

    /// Age in seconds beyond which a proposal is swept.
    pub open spec fn expiry(&self) -> u64 {
        self.config.expiry_seconds
    }

    /// Handles a Propose event at time `now`: resolves the target once,
    /// and asks for the new proposal to be saved and then announced.
    pub fn propose(
        &self,
        action: String,
        target: String,
        author: String,
        origin: Platform,
        channel: String,
        reason: String,
        now: u64,
    ) -> (effects: Vec<Effect>)
        ensures
            effect_views(effects@) == propose_plan(
                fresh_proposal(action@, target@, author@, origin, channel@, reason@, now),
            ),
    {
        let id = resolve(target.as_str(), origin);
        let approvers: Vec<String> = Vec::new();
        assert(texts(approvers@) =~= Seq::<Text>::empty());
        let p = Proposal {
            target: id,
            action,
            reason,
            author,
            origin,
            channel,
            approvers,
            timestamp: now,
        };
        let copy = p.clone();
        let mut effects: Vec<Effect> = Vec::new();
        effects.push(Effect::Save(copy));
        effects.push(Effect::Notify(p));
        assert(effect_views(effects@) =~= propose_plan(p@));
        effects
    }

    /// Handles an Approve event on `target`, where `found` is what the
    /// store holds under that key.
    ///
    /// Nothing pending: nothing to do. The author approving: turned down.
    /// Otherwise the approver is counted once; at quorum the proposal is
    /// executed and removed, below it the new count is saved.
    pub fn approve(&self, target: &str, found: Option<Proposal>, approver: &str) -> (res: Result<
        Vec<Effect>,
        CoreError,
    >)
        ensures
            match approve_plan(opt_proposal(found), target@, approver@, self.required()) {
                Ok(effects) => res is Ok && effect_views(res->Ok_0@) == effects,
                Err(e) => res == Err::<Vec<Effect>, CoreError>(e),
            },
    {
        let mut effects: Vec<Effect> = Vec::new();
        match found {
            None => {
                assert(effect_views(effects@) =~= Seq::<EffectView>::empty());
                Ok(effects)
            },
            Some(p) => {
                let name = String::from_str(approver);
                if p.author == name {
                    return Err(CoreError::SelfApproval);
                }
                let ghost before = p@;
                let mut p = p;
                if !has_text(&p.approvers, &name) {
                    let ghost names = texts(p.approvers@);
                    p.approvers.push(name.clone());
                    assert(texts(p.approvers@) =~= names.push(name@));
                }
                assert(p@ == before.with_approver(approver@));
                if p.approvers.len() >= self.config.required_approvals {
                    effects.push(Effect::Execute(p, name));
                    effects.push(Effect::Remove(String::from_str(target)));
                    assert(effect_views(effects@) =~= seq![
                        EffectView::Execute(before.with_approver(approver@), approver@),
                        EffectView::Remove(target@),
                    ]);
                } else {
                    effects.push(Effect::Save(p));
                    assert(effect_views(effects@) =~= seq![
                        EffectView::Save(before.with_approver(approver@)),
                    ]);
                }
                Ok(effects)
            },
        }
    }

    /// Handles a Cancel event on `target` by `author`, where `found` is
    /// what the store holds under that key: a pending proposal is
    /// announced as cancelled and then removed, whoever asks.
    pub fn cancel(&self, target: &str, found: Option<Proposal>, author: &str) -> (effects: Vec<
        Effect,
    >)
        ensures
            effect_views(effects@) == cancel_plan(opt_proposal(found), target@, author@),
    {
        let mut effects: Vec<Effect> = Vec::new();
        match found {
            None => {
                assert(effect_views(effects@) =~= Seq::<EffectView>::empty());
            },
            Some(p) => {
                let why = String::from_str("Cancelled by ").concat(author);
                let ghost view = p@;
                effects.push(Effect::Discard(p, why));
                effects.push(Effect::Remove(String::from_str(target)));
                assert(effect_views(effects@) =~= seq![
                    EffectView::Discard(view, cancel_reason(author@)),
                    EffectView::Remove(target@),
                ]);
            },
        }
        effects
    }

    /// Whether `p` has outlived the expiry window at time `now`.
    pub fn is_expired(&self, p: &Proposal, now: u64) -> (yes: bool)
        ensures
            yes == p@.expired(now, self.expiry()),
    {
        now > p.timestamp && now - p.timestamp > self.config.expiry_seconds
    }

    /// Handles a Sweep event at time `now`, where `pending` is every
    /// proposal the store holds: each expired one is announced as expired
    /// and then removed.
    pub fn sweep(&self, pending: Vec<Proposal>, now: u64) -> (effects: Vec<Effect>)
        ensures
            effect_views(effects@) == sweep_plan(proposal_views(pending@), now, self.expiry()),
    {
        let ghost all = proposal_views(pending@);
        let mut effects: Vec<Effect> = Vec::new();
        let mut i: usize = 0;
        assert(effect_views(effects@) =~= Seq::<EffectView>::empty());
        assert(all.take(0) =~= Seq::<ProposalView>::empty());
        while i < pending.len()
            invariant
                i <= pending.len(),
                all == proposal_views(pending@),
                effect_views(effects@) == sweep_plan(all.take(i as int), now, self.expiry()),
            decreases pending.len() - i,
        {
            let ghost so_far = effect_views(effects@);
            proof {
                assert(all.take(i + 1).drop_last() =~= all.take(i as int));
                assert(all.take(i + 1).last() == pending@[i as int]@);
            }
            if self.is_expired(&pending[i], now) {
                let p = pending[i].clone();
                let key = pending[i].target.raw.clone();
                effects.push(Effect::Discard(p, String::from_str("Expired")));
                effects.push(Effect::Remove(key));
                assert(effect_views(effects@) =~= so_far + sweep_one(
                    pending@[i as int]@,
                    now,
                    self.expiry(),
                ));
            } else {
                assert(so_far + sweep_one(pending@[i as int]@, now, self.expiry()) =~= so_far);
            }
            i = i + 1;
        }
        assert(all.take(pending.len() as int) =~= all);
        effects
    }

    /// Decides on `event` at time `now`, given what was read for it:
    /// `found` is what the store holds under the event's key, `pending`
    /// every proposal it holds. What an event does not need is not looked
    /// at.
    pub fn decide(&self, event: Event, found: Option<Proposal>, pending: Vec<Proposal>, now: u64)
        -> (res: Result<Vec<Effect>, CoreError>)
        ensures
            match decide_spec(
                event@,
                opt_proposal(found),
                proposal_views(pending@),
                now,
                self.required(),
                self.expiry(),
            ) {
                Ok(effects) => res is Ok && effect_views(res->Ok_0@) == effects,
                Err(e) => res == Err::<Vec<Effect>, CoreError>(e),
            },
    {
        match event {
            Event::Propose { action, target, author, origin, channel, reason } => Ok(
                self.propose(action, target, author, origin, channel, reason, now),
            ),
            Event::Approve { target, approver } => self.approve(
                target.as_str(),
                found,
                approver.as_str(),
            ),
            Event::Cancel { target, author } => Ok(
                self.cancel(target.as_str(), found, author.as_str()),
            ),
            Event::Sweep => Ok(self.sweep(pending, now)),
        }
    }

    /// Handles `event` at time `now` against `store`, from reading to
    /// writing, and returns the effects of the transition so that the
    /// caller can pass the driver effects on.
    ///
    /// The store ends as the effects leave it. An event that is turned
    /// down leaves it untouched.
    pub fn run(&self, store: &mut MemoryStore, event: Event, now: u64) -> (res: Result<
        Vec<Effect>,
        CoreError,
    >)
        ensures
            match plan(old(store)@, event@, now, self.required(), self.expiry()) {
                Ok(effects) => {
                    &&& res is Ok
                    &&& effect_views(res->Ok_0@) == effects
                    &&& final(store)@ == apply_all(old(store)@, effects)
                },
                Err(e) => res == Err::<Vec<Effect>, CoreError>(e) && final(store)@ == old(store)@,
            },
            final(store)@ == step(old(store)@, event@, now, self.required(), self.expiry()),
            distinct_keys(final(store)@),
    {
        let needs = event.needs();
        let found = match &needs.key {
            Some(key) => store.get(key.as_str()),
            None => None,
        };
        let pending = if needs.listing {
            store.list()
        } else {
            Vec::new()
        };
        match self.decide(event, found, pending, now) {
            Ok(effects) => {
                store.apply(&effects);
                Ok(effects)
            },
            Err(e) => Err(e),
        }
    }
}

impl Event {
    /// What has to be read before the event can be decided on: the
    /// proposal under its target for an approval or a cancellation, every
    /// pending proposal for a sweep, and the time for a proposal or a
    /// sweep.
    pub fn needs(&self) -> (needs: Needs)
        ensures
            opt_text(needs.key) == key_of(self@),
            needs.listing == (self@ is Sweep),
            needs.clock == (self@ is Propose || self@ is Sweep),
    {
        match self {
            Event::Propose { .. } => Needs { key: None, listing: false, clock: true },
            Event::Approve { target, .. } => Needs {
                key: Some(target.clone()),
                listing: false,
                clock: false,
            },
            Event::Cancel { target, .. } => Needs {
                key: Some(target.clone()),
                listing: false,
                clock: false,
            },
            Event::Sweep => Needs { key: None, listing: true, clock: true },
        }
    }
}

} // verus!
