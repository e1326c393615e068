//! The store as contracts see it: a sequence of pending proposals in which
//! no key occurs twice.

use crate::domain::models::{ProposalView, Text};
use vstd::prelude::*;

verus! {

/// Pending proposals, oldest entry first.
pub type Records = Seq<ProposalView>;

/// No two entries share a key.
pub open spec fn distinct_keys(records: Records) -> bool {
    forall|i: int, j: int|
        0 <= i < j < records.len() ==> (#[trigger] records[i]).key() != (#[trigger] records[j]).key()
}

/// Index of the first entry stored under `key`, or the length when there
/// is none.
pub open spec fn position(records: Records, key: Text) -> int
    decreases records.len(),
{
    if records.len() == 0 {
        0
    } else if records[0].key() == key {
        0
    } else {
        1 + position(records.skip(1), key)
    }
}

/// Whether an entry is stored under `key`.
pub open spec fn holds(records: Records, key: Text) -> bool {
    position(records, key) < records.len()
}

/// The entry stored under `key`, if any.
pub open spec fn lookup(records: Records, key: Text) -> Option<ProposalView> {
    if holds(records, key) {
        Some(records[position(records, key)])
    } else {
        None
    }
}

/// `records` after saving `p`: it replaces the entry with its key, or
/// goes to the end.
pub open spec fn upsert(records: Records, p: ProposalView) -> Records {
    if holds(records, p.key()) {
        records.update(position(records, p.key()), p)
    } else {
        records.push(p)
    }
}

/// `records` without the entry stored under `key`.
pub open spec fn erase(records: Records, key: Text) -> Records {
    if holds(records, key) {
        records.remove(position(records, key))
    } else {
        records
    }
}

/// `position` is the least index whose entry has the key.
pub proof fn lemma_position(records: Records, key: Text)
    ensures
        0 <= position(records, key) <= records.len(),
        holds(records, key) ==> records[position(records, key)].key() == key,
        forall|i: int| 0 <= i < position(records, key) ==> (#[trigger] records[i]).key() != key,
    decreases records.len(),
{
    if records.len() > 0 && records[0].key() != key {
        let rest = records.skip(1);
        lemma_position(rest, key);
        assert forall|i: int| 0 <= i < position(records, key) implies (#[trigger] records[i]).key()
            != key by {
            if i > 0 {
                assert(records[i] == rest[i - 1]);
            }
        }
        if holds(records, key) {
            assert(records[position(records, key)] == rest[position(rest, key)]);
        }
    }
}

/// An index whose entry has the key, with none before it, is the position.
pub proof fn lemma_position_is(records: Records, key: Text, at: int)
    requires
        0 <= at <= records.len(),
        at < records.len() ==> records[at].key() == key,
        forall|i: int| 0 <= i < at ==> (#[trigger] records[i]).key() != key,
    ensures
        position(records, key) == at,
{
    lemma_position(records, key);
    let found = position(records, key);
    if found < at {
        assert(records[found].key() != key);
    }
}

/// Among distinct keys, the entry at any index is the one `lookup` finds.
pub proof fn lemma_lookup_at(records: Records, at: int)
    requires
        distinct_keys(records),
        0 <= at < records.len(),
    ensures
        position(records, records[at].key()) == at,
        lookup(records, records[at].key()) == Some(records[at]),
{
    lemma_position_is(records, records[at].key(), at);
}

/// Saving keeps keys distinct, stores the proposal under its key, and
/// leaves every other key as it was.
pub proof fn lemma_upsert(records: Records, p: ProposalView)
    requires
        distinct_keys(records),
    ensures
        distinct_keys(upsert(records, p)),
        lookup(upsert(records, p), p.key()) == Some(p),
        forall|key: Text| key != p.key() ==> lookup(upsert(records, p), key) == lookup(records, key),
        holds(records, p.key()) ==> upsert(records, p).len() == records.len(),
        !holds(records, p.key()) ==> upsert(records, p).len() == records.len() + 1,
{
    let after = upsert(records, p);
    let at = position(records, p.key());
    lemma_position(records, p.key());
    assert(after[at] == p);
    assert forall|i: int, j: int| 0 <= i < j < after.len() implies (#[trigger] after[i]).key() != (
    #[trigger] after[j]).key() by {
        if i != at && j != at {
            assert(after[i] == records[i] && after[j] == records[j]);
        } else if i == at {
            if j < records.len() {
                assert(after[j] == records[j]);
                assert(records[at].key() != records[j].key());
            }
        } else {
            assert(after[i] == records[i]);
            if at < records.len() {
                assert(records[i].key() != records[at].key());
            } else {
                assert(i < at);
            }
        }
    }
    lemma_position_is(after, p.key(), at);
    assert forall|key: Text| key != p.key() implies lookup(after, key) == lookup(records, key) by {
        lemma_position(records, key);
        let k = position(records, key);
        if k < records.len() {
            assert(k != at);
            assert(after[k] == records[k]);
        }
        assert forall|i: int| 0 <= i < k implies (#[trigger] after[i]).key() != key by {
            if i != at {
                assert(after[i] == records[i]);
            }
        }
        if k < records.len() {
            lemma_position_is(after, key, k);
        } else {
            assert(after.len() == k || after[k] == p);
            lemma_position_is(after, key, after.len() as int);
        }
    }
}

/// Erasing keeps keys distinct, empties the key, and leaves every other
/// key as it was.
pub proof fn lemma_erase(records: Records, gone: Text)
    requires
        distinct_keys(records),
    ensures
        distinct_keys(erase(records, gone)),
        lookup(erase(records, gone), gone) is None,
        forall|key: Text| key != gone ==> lookup(erase(records, gone), key) == lookup(records, key),
        holds(records, gone) ==> erase(records, gone).len() == records.len() - 1,
        !holds(records, gone) ==> erase(records, gone) == records,
{
    let after = erase(records, gone);
    let at = position(records, gone);
    lemma_position(records, gone);
    if at < records.len() {
        assert forall|i: int| 0 <= i < after.len() implies #[trigger] after[i] == records[if i
            < at {
            i
        } else {
            i + 1
        }] by {}
        assert forall|i: int, j: int| 0 <= i < j < after.len() implies (#[trigger] after[i]).key()
            != (#[trigger] after[j]).key() by {
            let si = if i < at { i } else { i + 1 };
            let sj = if j < at { j } else { j + 1 };
            assert(after[i] == records[si] && after[j] == records[sj]);
            assert(records[si].key() != records[sj].key());
        }
        assert forall|i: int| 0 <= i < after.len() implies (#[trigger] after[i]).key() != gone by {
            let si = if i < at { i } else { i + 1 };
            assert(after[i] == records[si]);
            if si > at {
                assert(records[at].key() != records[si].key());
            }
        }
        lemma_position_is(after, gone, after.len() as int);
        assert forall|key: Text| key != gone implies lookup(after, key) == lookup(records, key) by {
            lemma_position(records, key);
            let k = position(records, key);
            let tk = if k < at { k } else { k - 1 };
            assert(k != at);
            assert forall|i: int| 0 <= i < tk implies (#[trigger] after[i]).key() != key by {
                let si = if i < at { i } else { i + 1 };
                assert(after[i] == records[si]);
            }
            if k < records.len() {
                assert(after[tk] == records[k]);
            }
            lemma_position_is(after, key, tk);
        }
    } else {
        assert forall|key: Text| key != gone implies lookup(after, key) == lookup(records, key) by {}
    }
}

} // verus!
