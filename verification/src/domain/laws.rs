//! What holds of the engine whatever the events are, proved over the
//! model that the engine's contracts are stated in.

use crate::domain::effects::{apply, apply_all, lemma_apply_all_concat, EffectView};
use crate::domain::engine::{
    cancel_reason, expiry_reason, fresh_proposal, plan, step, sweep_one, sweep_plan, CoreError,
};
use crate::domain::models::{EventView, Platform, ProposalView, Text};
use crate::domain::records::{
    distinct_keys, erase, holds, lemma_erase, lemma_lookup_at, lemma_position, lemma_upsert,
    lookup, position, upsert, Records,
};
use vstd::prelude::*;

verus! {

/// Carrying out no effect changes nothing.
pub proof fn lemma_apply_none(records: Records)
    ensures
        apply_all(records, Seq::empty()) == records,
{
}

/// Carrying out a single effect.
pub proof fn lemma_apply_one(records: Records, a: EffectView)
    ensures
        apply_all(records, seq![a]) == apply(records, a),
{
    reveal_with_fuel(apply_all, 2);
    assert(seq![a].skip(1) =~= Seq::<EffectView>::empty());
}

/// Carrying out two effects in a row.
pub proof fn lemma_apply_two(records: Records, a: EffectView, b: EffectView)
    ensures
        apply_all(records, seq![a, b]) == apply(apply(records, a), b),
{
    assert(seq![a, b] =~= seq![a] + seq![b]);
    lemma_apply_all_concat(records, seq![a], seq![b]);
    lemma_apply_one(records, a);
    lemma_apply_one(apply(records, a), b);
}

/// No list of effects can put two proposals under one key.
pub proof fn lemma_effects_keep_keys_distinct(records: Records, effects: Seq<EffectView>)
    requires
        distinct_keys(records),
    ensures
        distinct_keys(apply_all(records, effects)),
    decreases effects.len(),
{
    if effects.len() > 0 {
        match effects[0] {
            EffectView::Save(p) => lemma_upsert(records, p),
            EffectView::Remove(key) => lemma_erase(records, key),
            _ => {},
        }
        lemma_effects_keep_keys_distinct(apply(records, effects[0]), effects.skip(1));
    }
}

/// Whatever the event, the store holds at most one proposal for each
/// target key afterwards.
pub proof fn law_one_proposal_per_key(
    records: Records,
    event: EventView,
    now: u64,
    required: nat,
    expiry: u64,
)
    requires
        distinct_keys(records),
    ensures
        distinct_keys(step(records, event, now, required, expiry)),
{
    match plan(records, event, now, required, expiry) {
        Ok(effects) => lemma_effects_keep_keys_distinct(records, effects),
        Err(_) => {},
    }
}

/// What the store holds under a key is a proposal on that very target.
pub proof fn law_found_under_own_key(records: Records, key: Text)
    ensures
        lookup(records, key) matches Some(p) ==> p.key() == key,
{
    lemma_position(records, key);
}

/// A Propose event stores the fresh proposal under the target as it was
/// written, in place of whatever was pending there, and touches no other
/// key.
pub proof fn law_propose_stores(
    records: Records,
    action: Text,
    target: Text,
    author: Text,
    origin: Platform,
    channel: Text,
    reason: Text,
    now: u64,
    required: nat,
    expiry: u64,
)
    requires
        distinct_keys(records),
    ensures
        ({
            let event = EventView::Propose { action, target, author, origin, channel, reason };
            let fresh = fresh_proposal(action, target, author, origin, channel, reason, now);
            let after = step(records, event, now, required, expiry);
            &&& fresh.key() == target
            &&& fresh.approvers.len() == 0
            &&& after == upsert(records, fresh)
            &&& lookup(after, target) == Some(fresh)
            &&& forall|key: Text| key != target ==> lookup(after, key) == lookup(records, key)
        }),
{
    let fresh = fresh_proposal(action, target, author, origin, channel, reason, now);
    lemma_apply_two(records, EffectView::Save(fresh), EffectView::Notify(fresh));
    lemma_upsert(records, fresh);
}

/// An approval by the author of the pending proposal is turned down, and
/// leaves the store as it was: no approver is added, nothing is executed.
pub proof fn law_author_cannot_approve(
    records: Records,
    target: Text,
    approver: Text,
    now: u64,
    required: nat,
    expiry: u64,
)
    requires
        lookup(records, target) matches Some(p) && p.author == approver,
    ensures
        ({
            let event = EventView::Approve { target, approver };
            &&& plan(records, event, now, required, expiry) == Err::<Seq<EffectView>, CoreError>(
                CoreError::SelfApproval,
            )
            &&& step(records, event, now, required, expiry) == records
        }),
{
}

/// Straight after a proposal, its author's approval is turned down and
/// the proposal stays as it was created, with no approver.
pub proof fn law_fresh_proposal_rejects_author(
    records: Records,
    action: Text,
    target: Text,
    author: Text,
    origin: Platform,
    channel: Text,
    reason: Text,
    now: u64,
    later: u64,
    required: nat,
    expiry: u64,
)
    requires
        distinct_keys(records),
    ensures
        ({
            let proposed = step(
                records,
                EventView::Propose { action, target, author, origin, channel, reason },
                now,
                required,
                expiry,
            );
            let approval = EventView::Approve { target, approver: author };
            &&& plan(proposed, approval, later, required, expiry) == Err::<
                Seq<EffectView>,
                CoreError,
            >(CoreError::SelfApproval)
            &&& step(proposed, approval, later, required, expiry) == proposed
            &&& lookup(proposed, target) == Some(
                fresh_proposal(action, target, author, origin, channel, reason, now),
            )
        }),
{
    law_propose_stores(
        records,
        action,
        target,
        author,
        origin,
        channel,
        reason,
        now,
        required,
        expiry,
    );
}

/// `records` after `event` has been handled `times` times in a row.
pub open spec fn repeat(
    records: Records,
    event: EventView,
    times: nat,
    now: u64,
    required: nat,
    expiry: u64,
) -> Records
    decreases times,
{
    if times == 0 {
        records
    } else {
        step(repeat(records, event, (times - 1) as nat, now, required, expiry), event, now, required, expiry)
    }
}

/// One approval below quorum: the approver is counted, once, and the
/// proposal stays pending.
pub proof fn law_approval_below_quorum(
    records: Records,
    target: Text,
    approver: Text,
    now: u64,
    required: nat,
    expiry: u64,
)
    requires
        distinct_keys(records),
        lookup(records, target) matches Some(p) && p.author != approver && p.with_approver(
            approver,
        ).approvers.len() < required,
    ensures
        ({
            let event = EventView::Approve { target, approver };
            let counted = lookup(records, target)->0.with_approver(approver);
            let after = step(records, event, now, required, expiry);
            &&& plan(records, event, now, required, expiry) == Ok::<Seq<EffectView>, CoreError>(
                seq![EffectView::Save(counted)],
            )
            &&& lookup(after, target) == Some(counted)
            &&& forall|key: Text| key != target ==> lookup(after, key) == lookup(records, key)
            &&& distinct_keys(after)
        }),
{
    let p = lookup(records, target)->0;
    let counted = p.with_approver(approver);
    lemma_position(records, target);
    assert(counted.key() == target);
    lemma_apply_one(records, EffectView::Save(counted));
    lemma_upsert(records, counted);
}

/// Counting the same approver again changes nothing.
pub proof fn lemma_with_approver_twice(p: ProposalView, approver: Text)
    ensures
        p.with_approver(approver).with_approver(approver) == p.with_approver(approver),
        p.with_approver(approver).author == p.author,
{
    if !p.approvers.contains(approver) {
        let pushed = p.approvers.push(approver);
        assert(pushed[pushed.len() - 1] == approver);
    }
}

/// The same approval sent any number of times counts once: while the
/// quorum is out of reach the approver appears exactly once among the
/// approvers, however often the event is repeated.
pub proof fn law_repeated_approval_counts_once(
    records: Records,
    target: Text,
    approver: Text,
    times: nat,
    now: u64,
    required: nat,
    expiry: u64,
)
    requires
        distinct_keys(records),
        times >= 1,
        lookup(records, target) matches Some(p) && p.author != approver && p.with_approver(
            approver,
        ).approvers.len() < required,
    ensures
        ({
            let event = EventView::Approve { target, approver };
            let after = repeat(records, event, times, now, required, expiry);
            let p = lookup(records, target)->0;
            &&& distinct_keys(after)
            &&& lookup(after, target) == Some(p.with_approver(approver))
            &&& p.approvers.len() == 0 ==> lookup(after, target)->0.approvers == seq![approver]
        }),
    decreases times,
{
    let event = EventView::Approve { target, approver };
    let p = lookup(records, target)->0;
    lemma_with_approver_twice(p, approver);
    if times == 1 {
        assert(repeat(records, event, 0, now, required, expiry) == records);
        law_approval_below_quorum(records, target, approver, now, required, expiry);
    } else {
        law_repeated_approval_counts_once(
            records,
            target,
            approver,
            (times - 1) as nat,
            now,
            required,
            expiry,
        );
        let before = repeat(records, event, (times - 1) as nat, now, required, expiry);
        law_approval_below_quorum(before, target, approver, now, required, expiry);
    }
    if p.approvers.len() == 0 {
        assert(p.approvers.push(approver) =~= seq![approver]);
    }
}

/// The approval that completes the quorum has the proposal executed once,
/// with that approver counted, and removed; any later approval of the
/// same target finds nothing and does nothing.
pub proof fn law_quorum_executes_and_removes(
    records: Records,
    target: Text,
    approver: Text,
    latecomer: Text,
    now: u64,
    later: u64,
    required: nat,
    expiry: u64,
)
    requires
        distinct_keys(records),
        lookup(records, target) matches Some(p) && p.author != approver && p.with_approver(
            approver,
        ).approvers.len() >= required,
    ensures
        ({
            let event = EventView::Approve { target, approver };
            let counted = lookup(records, target)->0.with_approver(approver);
            let after = step(records, event, now, required, expiry);
            let again = EventView::Approve { target, approver: latecomer };
            &&& plan(records, event, now, required, expiry) == Ok::<Seq<EffectView>, CoreError>(
                seq![EffectView::Execute(counted, approver), EffectView::Remove(target)],
            )
            &&& lookup(after, target) is None
            &&& forall|key: Text| key != target ==> lookup(after, key) == lookup(records, key)
            &&& distinct_keys(after)
            &&& plan(after, again, later, required, expiry) == Ok::<Seq<EffectView>, CoreError>(
                Seq::empty(),
            )
            &&& step(after, again, later, required, expiry) == after
        }),
{
    let counted = lookup(records, target)->0.with_approver(approver);
    lemma_apply_two(records, EffectView::Execute(counted, approver), EffectView::Remove(target));
    lemma_erase(records, target);
}

/// With a quorum of two: after approvals by two different people, neither
/// of them the author, a freshly proposed target has been executed once,
/// by the second approval, and is gone; a third approval does nothing.
pub proof fn law_two_approvals_execute(
    records: Records,
    target: Text,
    first: Text,
    second: Text,
    third: Text,
    now: u64,
    expiry: u64,
)
    requires
        distinct_keys(records),
        lookup(records, target) matches Some(p) && p.approvers.len() == 0 && p.author != first
            && p.author != second,
        first != second,
    ensures
        ({
            let p = lookup(records, target)->0;
            let one = ProposalView { approvers: seq![first], ..p };
            let two = ProposalView { approvers: seq![first, second], ..p };
            let after_first = step(records, EventView::Approve { target, approver: first }, now, 2, expiry);
            let after_second = step(
                after_first,
                EventView::Approve { target, approver: second },
                now,
                2,
                expiry,
            );
            let late = EventView::Approve { target, approver: third };
            &&& plan(records, EventView::Approve { target, approver: first }, now, 2, expiry) == Ok::<
                Seq<EffectView>,
                CoreError,
            >(seq![EffectView::Save(one)])
            &&& plan(after_first, EventView::Approve { target, approver: second }, now, 2, expiry)
                == Ok::<Seq<EffectView>, CoreError>(
                seq![EffectView::Execute(two, second), EffectView::Remove(target)],
            )
            &&& lookup(after_second, target) is None
            &&& plan(after_second, late, now, 2, expiry) == Ok::<Seq<EffectView>, CoreError>(
                Seq::empty(),
            )
            &&& step(after_second, late, now, 2, expiry) == after_second
        }),
{
    let p = lookup(records, target)->0;
    let one = ProposalView { approvers: seq![first], ..p };
    let two = ProposalView { approvers: seq![first, second], ..p };
    assert(p.approvers =~= Seq::<Text>::empty());
    assert(p.approvers.push(first) =~= seq![first]);
    assert(p.with_approver(first) == one);
    law_approval_below_quorum(records, target, first, now, 2, expiry);
    let after_first = step(records, EventView::Approve { target, approver: first }, now, 2, expiry);
    assert(!one.approvers.contains(second));
    assert(one.approvers.push(second) =~= seq![first, second]);
    assert(one.with_approver(second) == two);
    law_quorum_executes_and_removes(after_first, target, second, third, now, now, 2, expiry);
}

/// Cancelling a target with nothing pending asks for no driver call and
/// leaves the store as it was.
pub proof fn law_cancel_of_nothing(
    records: Records,
    target: Text,
    author: Text,
    now: u64,
    required: nat,
    expiry: u64,
)
    requires
        lookup(records, target) is None,
    ensures
        ({
            let event = EventView::Cancel { target, author };
            &&& plan(records, event, now, required, expiry) == Ok::<Seq<EffectView>, CoreError>(
                Seq::empty(),
            )
            &&& step(records, event, now, required, expiry) == records
        }),
{
}

/// Cancelling a pending proposal has it discarded once, with the
/// canceller named, and removed.
pub proof fn law_cancel_removes(
    records: Records,
    target: Text,
    author: Text,
    now: u64,
    required: nat,
    expiry: u64,
)
    requires
        distinct_keys(records),
        lookup(records, target) is Some,
    ensures
        ({
            let event = EventView::Cancel { target, author };
            let p = lookup(records, target)->0;
            let after = step(records, event, now, required, expiry);
            &&& plan(records, event, now, required, expiry) == Ok::<Seq<EffectView>, CoreError>(
                seq![EffectView::Discard(p, cancel_reason(author)), EffectView::Remove(target)],
            )
            &&& lookup(after, target) is None
            &&& forall|key: Text| key != target ==> lookup(after, key) == lookup(records, key)
        }),
{
    let p = lookup(records, target)->0;
    lemma_apply_two(
        records,
        EffectView::Discard(p, cancel_reason(author)),
        EffectView::Remove(target),
    );
    lemma_erase(records, target);
}

/// What is left under `key` once the first `upto` entries have been
/// swept.
pub open spec fn swept_lookup(records: Records, key: Text, upto: int, now: u64, expiry: u64)
    -> Option<ProposalView> {
    match lookup(records, key) {
        Some(p) => if p.expired(now, expiry) && position(records, key) < upto {
            None
        } else {
            Some(p)
        },
        None => None,
    }
}

/// Sweeping the first `upto` entries removes the expired ones among them
/// and nothing else.
proof fn lemma_sweep_prefix(records: Records, upto: int, now: u64, expiry: u64)
    requires
        distinct_keys(records),
        0 <= upto <= records.len(),
    ensures
        distinct_keys(apply_all(records, sweep_plan(records.take(upto), now, expiry))),
        forall|key: Text|
            lookup(apply_all(records, sweep_plan(records.take(upto), now, expiry)), key)
                == swept_lookup(records, key, upto, now, expiry),
    decreases upto,
{
    if upto == 0 {
        assert(records.take(0) =~= Seq::<ProposalView>::empty());
        assert forall|key: Text| lookup(records, key) == swept_lookup(records, key, 0, now, expiry) by {
            lemma_position(records, key);
        }
    } else {
        let k = upto - 1;
        lemma_sweep_prefix(records, k, now, expiry);
        let p = records[k];
        let earlier = sweep_plan(records.take(k), now, expiry);
        let before = apply_all(records, earlier);
        assert(records.take(upto).drop_last() =~= records.take(k));
        assert(records.take(upto).last() == p);
        lemma_apply_all_concat(records, earlier, sweep_one(p, now, expiry));
        let after = apply_all(records, sweep_plan(records.take(upto), now, expiry));
        lemma_lookup_at(records, k);
        if p.expired(now, expiry) {
            lemma_apply_two(
                before,
                EffectView::Discard(p, expiry_reason()),
                EffectView::Remove(p.key()),
            );
            lemma_erase(before, p.key());
            assert(after == erase(before, p.key()));
        } else {
            lemma_apply_none(before);
            assert(sweep_one(p, now, expiry) =~= Seq::<EffectView>::empty());
            assert(after == before);
        }
        assert forall|key: Text| lookup(after, key) == swept_lookup(
            records,
            key,
            upto,
            now,
            expiry,
        ) by {
            lemma_position(records, key);
            assert(lookup(before, key) == swept_lookup(records, key, k, now, expiry));
            if key != p.key() {
                assert(position(records, key) != k);
                assert(lookup(after, key) == lookup(before, key));
            } else {
                assert(lookup(records, key) == Some(p));
            }
        }
    }
}

/// A sweep removes every pending proposal that is older than the expiry
/// window, and leaves every other one exactly as it was.
pub proof fn law_sweep_removes_the_expired(records: Records, now: u64, required: nat, expiry: u64)
    requires
        distinct_keys(records),
    ensures
        ({
            let after = step(records, EventView::Sweep, now, required, expiry);
            &&& distinct_keys(after)
            &&& forall|key: Text|
                lookup(after, key) == match lookup(records, key) {
                    Some(p) => if p.expired(now, expiry) {
                        None
                    } else {
                        Some(p)
                    },
                    None => None,
                }
        }),
{
    lemma_sweep_prefix(records, records.len() as int, now, expiry);
    assert(records.take(records.len() as int) =~= records);
    let after = step(records, EventView::Sweep, now, required, expiry);
    assert forall|key: Text|
        lookup(after, key) == match lookup(records, key) {
            Some(p) => if p.expired(now, expiry) {
                None
            } else {
                Some(p)
            },
            None => None,
        } by {
        lemma_position(records, key);
        assert(lookup(after, key) == swept_lookup(records, key, records.len() as int, now, expiry));
    }
}

/// A sweep has exactly the expired proposals discarded, each with the
/// expiry reason and each followed by its removal.
pub proof fn law_sweep_discards_the_expired(pending: Seq<ProposalView>, now: u64, expiry: u64)
    ensures
        forall|i: int|
            0 <= i < pending.len() && (#[trigger] pending[i]).expired(now, expiry) ==> sweep_plan(
                pending,
                now,
                expiry,
            ).contains(EffectView::Discard(pending[i], expiry_reason())),
        forall|j: int|
            0 <= j < sweep_plan(pending, now, expiry).len() ==> match (#[trigger] sweep_plan(
                pending,
                now,
                expiry,
            )[j]) {
                EffectView::Discard(p, why) => {
                    &&& pending.contains(p)
                    &&& p.expired(now, expiry)
                    &&& why == expiry_reason()
                    &&& j + 1 < sweep_plan(pending, now, expiry).len()
                    &&& sweep_plan(pending, now, expiry)[j + 1] == EffectView::Remove(p.key())
                },
                EffectView::Remove(key) => {
                    &&& j > 0
                    &&& sweep_plan(pending, now, expiry)[j - 1] is Discard
                },
                _ => false,
            },
    decreases pending.len(),
{
    if pending.len() > 0 {
        let rest = pending.drop_last();
        let last = pending.last();
        law_sweep_discards_the_expired(rest, now, expiry);
        let head = sweep_plan(rest, now, expiry);
        let tail = sweep_one(last, now, expiry);
        let whole = sweep_plan(pending, now, expiry);
        assert(whole == head + tail);
        assert forall|i: int|
            0 <= i < pending.len() && (#[trigger] pending[i]).expired(now, expiry) implies whole.contains(
            EffectView::Discard(pending[i], expiry_reason()),
        ) by {
            if i < rest.len() {
                assert(rest[i] == pending[i]);
                let at = choose|at: int|
                    0 <= at < head.len() && head[at] == EffectView::Discard(
                        pending[i],
                        expiry_reason(),
                    );
                assert(whole[at] == head[at]);
            } else {
                assert(whole[head.len() as int] == tail[0]);
            }
        }
        assert forall|j: int| 0 <= j < whole.len() implies match (#[trigger] whole[j]) {
            EffectView::Discard(p, why) => {
                &&& pending.contains(p)
                &&& p.expired(now, expiry)
                &&& why == expiry_reason()
                &&& j + 1 < whole.len()
                &&& whole[j + 1] == EffectView::Remove(p.key())
            },
            EffectView::Remove(key) => {
                &&& j > 0
                &&& whole[j - 1] is Discard
            },
            _ => false,
        } by {
            if j < head.len() {
                assert(whole[j] == head[j]);
                match head[j] {
                    EffectView::Discard(p, why) => {
                        assert(whole[j + 1] == head[j + 1]);
                        let at = choose|at: int| 0 <= at < rest.len() && rest[at] == p;
                        assert(pending[at] == p);
                    },
                    EffectView::Remove(key) => {
                        assert(whole[j - 1] == head[j - 1]);
                    },
                    _ => {},
                }
            } else {
                assert(whole[j] == tail[j - head.len()]);
                assert(pending[pending.len() - 1] == last);
                if j == head.len() {
                    assert(whole[j + 1] == tail[1]);
                } else {
                    assert(whole[j - 1] == tail[0]);
                }
            }
        }
    }
}

/// Every stored proposal has distinct approvers, none of them its author.
pub open spec fn all_well_formed(records: Records) -> bool {
    forall|i: int| 0 <= i < records.len() ==> (#[trigger] records[i]).well_formed()
}

/// Every proposal that `effects` would save is well formed.
pub open spec fn saves_well_formed(effects: Seq<EffectView>) -> bool {
    forall|i: int|
        0 <= i < effects.len() ==> (#[trigger] effects[i] matches EffectView::Save(p)
            ==> p.well_formed())
}

/// Effects that save well-formed proposals only keep the store well
/// formed.
proof fn lemma_effects_keep_well_formed(records: Records, effects: Seq<EffectView>)
    requires
        all_well_formed(records),
        saves_well_formed(effects),
    ensures
        all_well_formed(apply_all(records, effects)),
    decreases effects.len(),
{
    if effects.len() > 0 {
        let next = apply(records, effects[0]);
        lemma_position(records, effects[0]->Save_0.key());
        match effects[0] {
            EffectView::Save(p) => {
                assert(p.well_formed());
                assert forall|i: int| 0 <= i < next.len() implies (#[trigger] next[i]).well_formed() by {
                    if next[i] != p {
                        assert(next[i] == records[i]);
                    }
                }
            },
            EffectView::Remove(key) => {
                lemma_position(records, key);
                let at = position(records, key);
                assert forall|i: int| 0 <= i < next.len() implies (#[trigger] next[i]).well_formed() by {
                    if holds(records, key) {
                        assert(next[i] == records[if i < at {
                            i
                        } else {
                            i + 1
                        }]);
                    }
                }
            },
            _ => {},
        }
        assert forall|i: int| 0 <= i < effects.skip(1).len() implies (
        #[trigger] effects.skip(1)[i] matches EffectView::Save(p) ==> p.well_formed()) by {
            assert(effects.skip(1)[i] == effects[i + 1]);
        }
        lemma_effects_keep_well_formed(next, effects.skip(1));
    }
}

/// A sweep saves nothing.
proof fn lemma_sweep_saves_nothing(pending: Seq<ProposalView>, now: u64, expiry: u64)
    ensures
        saves_well_formed(sweep_plan(pending, now, expiry)),
{
    law_sweep_discards_the_expired(pending, now, expiry);
}

/// Approvers stay a set: whatever the event, every stored proposal keeps
/// distinct approvers, and its author is never one of them.
pub proof fn law_approvers_stay_a_set(
    records: Records,
    event: EventView,
    now: u64,
    required: nat,
    expiry: u64,
)
    requires
        all_well_formed(records),
    ensures
        all_well_formed(step(records, event, now, required, expiry)),
{
    match plan(records, event, now, required, expiry) {
        Ok(effects) => {
            match event {
                EventView::Approve { target, approver } => {
                    lemma_position(records, target);
                    if lookup(records, target) is Some {
                        let p = lookup(records, target)->0;
                        assert(p.well_formed());
                        let counted = p.with_approver(approver);
                        if !p.approvers.contains(approver) {
                            assert forall|i: int, j: int|
                                0 <= i < counted.approvers.len() && 0 <= j
                                    < counted.approvers.len() && i != j implies counted.approvers[i]
                                != counted.approvers[j] by {
                                if i < p.approvers.len() {
                                    assert(p.approvers.contains(p.approvers[i]));
                                }
                                if j < p.approvers.len() {
                                    assert(p.approvers.contains(p.approvers[j]));
                                }
                            }
                            assert forall|i: int| 0 <= i < counted.approvers.len() implies counted.approvers[i]
                                != counted.author by {
                                if i < p.approvers.len() {
                                    assert(p.approvers.contains(p.approvers[i]));
                                }
                            }
                        }
                        assert(counted.well_formed());
                    }
                },
                EventView::Sweep => {
                    lemma_sweep_saves_nothing(records, now, expiry);
                },
                _ => {},
            }
            lemma_effects_keep_well_formed(records, effects);
        },
        Err(_) => {},
    }
}

/// A proposal created at one time and swept at another: inside the expiry
/// window it is left exactly as created; past it, it is discarded with the
/// expiry reason and gone from the store.
pub proof fn law_sweep_respects_the_window(
    records: Records,
    action: Text,
    target: Text,
    author: Text,
    origin: Platform,
    channel: Text,
    reason: Text,
    created: u64,
    swept: u64,
    required: nat,
    expiry: u64,
)
    requires
        distinct_keys(records),
    ensures
        ({
            let fresh = fresh_proposal(action, target, author, origin, channel, reason, created);
            let proposed = step(
                records,
                EventView::Propose { action, target, author, origin, channel, reason },
                created,
                required,
                expiry,
            );
            let after = step(proposed, EventView::Sweep, swept, required, expiry);
            let discard = EffectView::Discard(fresh, expiry_reason());
            &&& swept <= created + expiry ==> lookup(after, target) == Some(fresh) && !sweep_plan(
                proposed,
                swept,
                expiry,
            ).contains(discard)
            &&& swept > created + expiry ==> lookup(after, target) is None && sweep_plan(
                proposed,
                swept,
                expiry,
            ).contains(discard)
        }),
{
    let fresh = fresh_proposal(action, target, author, origin, channel, reason, created);
    let event = EventView::Propose { action, target, author, origin, channel, reason };
    let proposed = step(records, event, created, required, expiry);
    law_propose_stores(
        records,
        action,
        target,
        author,
        origin,
        channel,
        reason,
        created,
        required,
        expiry,
    );
    law_one_proposal_per_key(records, event, created, required, expiry);
    law_sweep_removes_the_expired(proposed, swept, required, expiry);
    law_sweep_discards_the_expired(proposed, swept, expiry);
    lemma_position(proposed, target);
    let at = position(proposed, target);
    assert(proposed[at] == fresh);
    let swept_plan = sweep_plan(proposed, swept, expiry);
    let discard = EffectView::Discard(fresh, expiry_reason());
    if swept <= created + expiry {
        if swept_plan.contains(discard) {
            let j = choose|j: int| 0 <= j < swept_plan.len() && swept_plan[j] == discard;
            assert(swept_plan[j] is Discard);
        }
    }
}

/// Whether an effect writes to the store.
pub open spec fn writes(effect: EffectView) -> bool {
    effect is Save || effect is Remove
}

/// A failed write leaves the store as it was before the event: but for a
/// sweep, no event writes more than once, so when the write at `failed`
/// does not go through and the transition ends there, nothing has been
/// written.
pub proof fn law_failed_write_changes_nothing(
    records: Records,
    event: EventView,
    now: u64,
    required: nat,
    expiry: u64,
    failed: int,
)
    requires
        !(event is Sweep),
        plan(records, event, now, required, expiry) matches Ok(effects) && 0 <= failed
            < effects.len() && writes(effects[failed]),
    ensures
        apply_all(records, plan(records, event, now, required, expiry)->Ok_0.take(failed))
            == records,
        forall|other: int|
            0 <= other < plan(records, event, now, required, expiry)->Ok_0.len() && other != failed
                ==> !writes(#[trigger] plan(records, event, now, required, expiry)->Ok_0[other]),
{
    let effects = plan(records, event, now, required, expiry)->Ok_0;
    let before = effects.take(failed);
    if failed == 0 {
        assert(before =~= Seq::<EffectView>::empty());
    } else {
        assert(failed == 1);
        assert(before =~= seq![effects[0]]);
        lemma_apply_one(records, effects[0]);
    }
}

} // verus!
