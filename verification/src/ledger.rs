//! What the store holds, as mathematics: the set of identifiers seen and the
//! count kept beside it, and how one visit changes both.

use crate::identity::{identifier_of, unknown_identifier};
use crate::store::{increment_due, seed_due};
use vstd::prelude::*;

verus! {

/// The contents of the store.
pub struct Ledger {
    /// The identifiers that have a row.
    pub seen: Set<Seq<char>>,
    /// What the count row holds.
    pub count: nat,
}

impl Ledger {
    /// A store in which nobody has been seen.
    pub open spec fn fresh() -> Ledger {
        Ledger { seen: Set::empty(), count: 0 }
    }

    /// The count is the number of identifiers seen.
    pub open spec fn consistent(self) -> bool {
        self.seen.finite() && self.count == self.seen.len()
    }

    /// How many rows an insert of `id` that skips what is there changes.
    pub open spec fn inserted(self, id: Seq<char>) -> nat {
        if self.seen.contains(id) {
            0
        } else {
            1
        }
    }

    /// The store after `id` was inserted unless it was there.
    pub open spec fn insert_if_absent(self, id: Seq<char>) -> Ledger {
        Ledger { seen: self.seen.insert(id), count: self.count }
    }

    /// The store after the count was raised by one.
    pub open spec fn raise(self) -> Ledger {
        Ledger { seen: self.seen, count: self.count + 1 }
    }

    /// The store after one visit from `id`: the insert, and then the raise
    /// where the insert changed a row.
    pub open spec fn record(self, id: Seq<char>) -> Ledger {
        if increment_due(self.inserted(id)) {
            self.insert_if_absent(id).raise()
        } else {
            self.insert_if_absent(id)
        }
    }

    /// The store after the visits `ids`, one after the other.
    pub open spec fn replay(self, ids: Seq<Seq<char>>) -> Ledger
        decreases ids.len(),
    {
        if ids.len() == 0 {
            self
        } else {
            self.replay(ids.drop_last()).record(ids.last())
        }
    }
}

/// The count rows after start-up, given the count rows before it: a row
/// with zero is written only where there was none.
pub open spec fn seeded(rows: Seq<nat>) -> Seq<nat> {
    if seed_due(rows.len() as int) {
        seq![0nat]
    } else {
        rows
    }
}

/// A visit keeps the count equal to the number of identifiers seen, and
/// raises it by one exactly where the identifier is new.
pub proof fn record_keeps_consistent(l: Ledger, id: Seq<char>)
    requires
        l.consistent(),
    ensures
        l.record(id).consistent(),
        l.record(id).seen == l.seen.insert(id),
        l.record(id).count == l.count + l.inserted(id),
{
}

/// Between the two writes of a new identifier the count is one short: the
/// insert and the raise have to be seen together or not at all.
pub proof fn insert_alone_is_inconsistent(l: Ledger, id: Seq<char>)
    requires
        l.consistent(),
        !l.seen.contains(id),
    ensures
        !l.insert_if_absent(id).consistent(),
        l.insert_if_absent(id).raise().consistent(),
{
}

/// A visit from an identifier that was seen before changes nothing, so a
/// second visit in a row never changes what the first one left.
pub proof fn repeated_visit_changes_nothing(l: Ledger, id: Seq<char>)
    ensures
        l.seen.contains(id) ==> l.record(id) == l,
        l.record(id).record(id) == l.record(id),
{
    let once = l.record(id);
    assert(once.seen.insert(id) =~= once.seen);
    if l.seen.contains(id) {
        assert(l.seen.insert(id) =~= l.seen);
    }
}

/// After any sequence of visits the store holds exactly the identifiers it
/// held before and those that visited, and the count is their number.
pub proof fn replay_counts_distinct(l: Ledger, ids: Seq<Seq<char>>)
    requires
        l.consistent(),
    ensures
        l.replay(ids).consistent(),
        l.replay(ids).seen == l.seen.union(ids.to_set()),
        l.replay(ids).count == l.seen.union(ids.to_set()).len(),
    decreases ids.len(),
{
    if ids.len() == 0 {
        assert(l.seen.union(ids.to_set()) =~= l.seen);
    } else {
        let before = ids.drop_last();
        replay_counts_distinct(l, before);
        record_keeps_consistent(l.replay(before), ids.last());
        assert forall|id: Seq<char>| ids.to_set().contains(id) <==> (before.to_set().contains(id)
            || id == ids.last()) by {
            if ids.contains(id) {
                let i = choose|i: int| 0 <= i < ids.len() && ids[i] == id;
                if i < before.len() {
                    assert(before[i] == id);
                }
            }
            if before.contains(id) {
                let i = choose|i: int| 0 <= i < before.len() && before[i] == id;
                assert(ids[i] == id);
            }
            if id == ids.last() {
                assert(ids[ids.len() - 1] == id);
            }
        }
        assert(l.replay(ids).seen =~= l.seen.union(ids.to_set()));
    }
}

/// Starting from an empty store, visits from N distinct identifiers, in any
/// order and with any repeats, leave a count of N.
pub proof fn count_is_number_of_distinct_visitors(ids: Seq<Seq<char>>)
    ensures
        Ledger::fresh().replay(ids).seen == ids.to_set(),
        Ledger::fresh().replay(ids).count == ids.to_set().len(),
{
    replay_counts_distinct(Ledger::fresh(), ids);
    assert(Ledger::fresh().seen.union(ids.to_set()) =~= ids.to_set());
}

/// Visits from K identifiers that are all different leave a count of K, in
/// whatever order the store serves them; and two orders of the same visitors
/// leave the same store.
pub proof fn order_of_visits_is_immaterial(ids: Seq<Seq<char>>, other: Seq<Seq<char>>)
    requires
        ids.to_set() == other.to_set(),
    ensures
        Ledger::fresh().replay(ids) == Ledger::fresh().replay(other),
        ids.no_duplicates() ==> Ledger::fresh().replay(other).count == ids.len(),
{
    count_is_number_of_distinct_visitors(ids);
    count_is_number_of_distinct_visitors(other);
    if ids.no_duplicates() {
        ids.unique_seq_to_set();
    }
}

/// A caller whom nobody could name is recorded under the sentinel, which
/// counts like any other identifier: once, at its first visit.
pub proof fn unnamed_caller_counts_once(l: Ledger)
    requires
        l.consistent(),
    ensures
        identifier_of(None, None) == unknown_identifier(),
        l.record(unknown_identifier()).count == l.count + (if l.seen.contains(
            unknown_identifier(),
        ) {
            0nat
        } else {
            1nat
        }),
        l.record(unknown_identifier()).record(unknown_identifier()) == l.record(
            unknown_identifier(),
        ),
{
    record_keeps_consistent(l, unknown_identifier());
    repeated_visit_changes_nothing(l, unknown_identifier());
}

/// Starting up again changes nothing: rows that exist are kept as they are,
/// and seeding twice gives what seeding once gives.
pub proof fn seeding_is_idempotent(rows: Seq<nat>)
    ensures
        rows.len() > 0 ==> seeded(rows) == rows,
        seeded(rows).len() > 0,
        seeded(seeded(rows)) == seeded(rows),
{
}

} // verus!
