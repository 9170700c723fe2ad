//! What holds of the filter over any number of looks by any number of
//! consumers.
//!
//! A [`Trace`] is the history of one tracked entity: the looks that
//! consumers took at it, in order, with the record before and after each
//! look and the filter's answers.

use vstd::prelude::*;
use vstd::std_specs::cmp::PartialEqSpec;
use crate::command::{attached, AttachCommand};
use crate::model::{advanced, caught_up, evaluated, fires, in_order, lawful, seeded, RecordView};

verus! {

/// The history of one tracked entity. Look `i` is taken by `consumers[i]`,
/// which sees `values[i]` at `ticks[i]`, finds `records[i]`, leaves
/// `records[i + 1]` and answers `fired[i]`.
pub struct Trace<T> {
    /// The record before the first look and after each look.
    pub records: Seq<RecordView<T>>,
    /// Who takes each look.
    pub consumers: Seq<usize>,
    /// The component's value at each look.
    pub values: Seq<T>,
    /// The tick of each look.
    pub ticks: Seq<u32>,
    /// The filter's answer at each look.
    pub fired: Seq<bool>,
}

/// No value from position `lo + 1` to position `hi` compares unequal to the
/// value before it: the values from `lo` to `hi` are one run of equal
/// values.
pub open spec fn steady<T: PartialEq>(values: Seq<T>, lo: int, hi: int) -> bool {
    forall|k: int| lo < k <= hi ==> #[trigger] values[k].eq_spec(&values[k - 1])
}

impl<T: PartialEq + Clone> Trace<T> {
    /// Look `i` is an evaluation as the filter performs it.
    pub open spec fn step(self, i: int) -> bool {
        evaluated(
            self.records[i],
            self.consumers[i],
            self.values[i],
            self.ticks[i],
            !self.values[i].eq_spec(&self.records[i].previous),
            self.records[i + 1],
            self.fired[i],
        )
    }

    /// Every look is an evaluation, and the ticks rise strictly, from above
    /// the tick of the first record.
    pub open spec fn valid(self) -> bool {
        &&& self.records.len() == self.values.len() + 1
        &&& self.consumers.len() == self.values.len()
        &&& self.ticks.len() == self.values.len()
        &&& self.fired.len() == self.values.len()
        &&& forall|i: int| 0 <= i < self.values.len() ==> #[trigger] self.step(i)
        &&& forall|i: int|
            0 <= i < self.ticks.len() ==> self.records[0].changed < #[trigger] self.ticks[i]
        &&& forall|i: int, j: int|
            0 <= i < j < self.ticks.len() ==> #[trigger] self.ticks[i] < #[trigger] self.ticks[j]
    }

    /// Looks `j` and `i` are consecutive looks of one consumer: it takes
    /// both, and none in between.
    pub open spec fn consecutive(self, j: int, i: int) -> bool {
        &&& 0 <= j < i < self.values.len()
        &&& self.consumers[j] == self.consumers[i]
        &&& forall|k: int| j < k < i ==> #[trigger] self.consumers[k] != self.consumers[i]
    }

    /// The tick of a record lies below the tick of every look that is still
    /// to come.
    pub proof fn changed_stays_below(self, i: int, j: int)
        requires
            self.valid(),
            0 <= i <= j < self.values.len(),
        ensures
            self.records[i].changed < self.ticks[j],
        decreases i,
    {
        if i > 0 {
            assert(self.step(i - 1));
            self.changed_stays_below(i - 1, j);
        }
    }

    /// Where no slot of the first record is ahead of the record's tick,
    /// none is in any later record.
    pub proof fn order_holds(self, i: int)
        requires
            self.valid(),
            in_order(self.records[0]),
            0 <= i <= self.values.len(),
        ensures
            in_order(self.records[i]),
        decreases i,
    {
        if i > 0 {
            self.order_holds(i - 1);
            self.changed_stays_below(i - 1, i - 1);
            assert(self.step(i - 1));
        }
    }

    /// After a look the canonical value compares equal to the value that
    /// was looked at.
    pub proof fn canonical_matches_last(self, i: int)
        requires
            self.valid(),
            lawful::<T>(),
            1 <= i <= self.values.len(),
        ensures
            self.values[i - 1].eq_spec(&self.records[i].previous),
    {
        assert(self.step(i - 1));
        if !self.values[i - 1].eq_spec(&self.records[i - 1].previous) {
            assert(cloned(self.values[i - 1], self.records[i].previous));
        }
    }

    /// From the second look on, a value compares unequal to the canonical
    /// value exactly when it compares unequal to the value of the look
    /// before.
    pub proof fn moved_iff_differs(self, k: int)
        requires
            self.valid(),
            lawful::<T>(),
            1 <= k < self.values.len(),
        ensures
            self.values[k].eq_spec(&self.records[k].previous) == self.values[k].eq_spec(
                &self.values[k - 1],
            ),
    {
        self.canonical_matches_last(k);
        let last = self.values[k - 1];
        let canonical = self.records[k].previous;
        let value = self.values[k];
        assert(last.eq_spec(&canonical));
        assert(canonical.eq_spec(&last));
        if value.eq_spec(&canonical) {
            assert(value.eq_spec(&last));
        }
        if value.eq_spec(&last) {
            assert(value.eq_spec(&canonical));
        }
    }

    /// Between two looks of a consumer its slot holds the tick that it
    /// acknowledged at the first of them, and the record's tick has moved
    /// on from there exactly if one of the values seen since compared
    /// unequal to the one before it.
    pub proof fn since_last_look(self, j: int, m: int)
        requires
            self.valid(),
            lawful::<T>(),
            0 <= j < m <= self.values.len(),
            forall|k: int| j < k < m ==> #[trigger] self.consumers[k] != self.consumers[j],
        ensures
            self.records[m].handled.contains_key(self.consumers[j]),
            self.records[m].handled[self.consumers[j]] == self.records[j + 1].changed,
            self.records[m].changed >= self.records[j + 1].changed,
            (self.records[m].changed == self.records[j + 1].changed) == steady(
                self.values,
                j,
                m - 1,
            ),
        decreases m - j,
    {
        if m == j + 1 {
            assert(self.step(j));
        } else {
            self.since_last_look(j, m - 1);
            assert(self.step(m - 1));
            assert(self.consumers[m - 1] != self.consumers[j]);
            self.changed_stays_below(m - 1, m - 1);
            self.moved_iff_differs(m - 1);
            if steady(self.values, j, m - 1) {
                assert(self.values[m - 1].eq_spec(&self.values[m - 2]));
                assert(steady(self.values, j, m - 2));
            }
            if steady(self.values, j, m - 2) && self.values[m - 1].eq_spec(&self.values[m - 2]) {
                assert(steady(self.values, j, m - 1));
            }
        }
    }

    /// A consumer's answer is `true` exactly if, since its last look, some
    /// value that any consumer saw compared unequal to the value seen
    /// before it: once per change of the value, however often the
    /// component was written without one.
    pub proof fn fires_once_per_change(self, j: int, i: int)
        requires
            self.valid(),
            lawful::<T>(),
            self.consecutive(j, i),
        ensures
            self.fired[i] == !steady(self.values, j, i),
    {
        self.since_last_look(j, i);
        assert(self.step(i));
        self.changed_stays_below(i, i);
        self.moved_iff_differs(i);
        if steady(self.values, j, i) {
            assert(self.values[i].eq_spec(&self.values[i - 1]));
            assert(steady(self.values, j, i - 1));
        }
        if steady(self.values, j, i - 1) && self.values[i].eq_spec(&self.values[i - 1]) {
            assert(steady(self.values, j, i));
        }
    }

    /// A consumer that takes two looks in a row answers `true` at the
    /// second exactly if the value it sees compares unequal to the value it
    /// saw at the first.
    pub proof fn alone_fires_on_difference(self, i: int)
        requires
            self.valid(),
            lawful::<T>(),
            1 <= i < self.values.len(),
            self.consumers[i - 1] == self.consumers[i],
        ensures
            self.fired[i] == !self.values[i].eq_spec(&self.values[i - 1]),
    {
        self.fires_once_per_change(i - 1, i);
        if self.values[i].eq_spec(&self.values[i - 1]) {
            assert(steady(self.values, i - 1, i));
        }
    }

    /// The values of one run of equal values compare equal to its first.
    pub proof fn steady_run_is_equal(self, j: int, i: int)
        requires
            lawful::<T>(),
            0 <= j <= i < self.values.len(),
            steady(self.values, j, i),
        ensures
            self.values[i].eq_spec(&self.values[j]),
        decreases i - j,
    {
        if i > j {
            assert(steady(self.values, j, i - 1));
            self.steady_run_is_equal(j, i - 1);
            assert(self.values[i].eq_spec(&self.values[i - 1]));
            assert(self.values[i - 1].eq_spec(&self.values[j]));
        } else {
            assert(self.values[j].eq_spec(&self.values[j]));
        }
    }

    /// The looks of other consumers do not alter a consumer's answers: it
    /// answers as it would alone, by comparing the value it sees with the
    /// value of its own last look. This holds unless the value went away
    /// and came back between the two looks and another consumer saw it
    /// while it was away.
    pub proof fn unaffected_by_others(self, j: int, i: int)
        requires
            self.valid(),
            lawful::<T>(),
            self.consecutive(j, i),
            self.values[i].eq_spec(&self.values[j]) ==> steady(self.values, j, i),
        ensures
            self.fired[i] == !self.values[i].eq_spec(&self.values[j]),
    {
        self.fires_once_per_change(j, i);
        if steady(self.values, j, i) {
            self.steady_run_is_equal(j, i);
        }
    }

    /// Independence of consumers, history against history: `alone` is a
    /// history in which the consumer takes looks `a - 1` and `a` with
    /// nobody in between, and sees values that compare equal to those of
    /// its consecutive looks `j` and `i` in this history, which it shares
    /// with others. Its answer is the same in both.
    pub proof fn same_answer_as_alone(self, j: int, i: int, alone: Trace<T>, a: int)
        requires
            self.valid(),
            alone.valid(),
            lawful::<T>(),
            self.consecutive(j, i),
            self.values[i].eq_spec(&self.values[j]) ==> steady(self.values, j, i),
            1 <= a < alone.values.len(),
            alone.consumers[a - 1] == alone.consumers[a],
            alone.values[a - 1].eq_spec(&self.values[j]),
            alone.values[a].eq_spec(&self.values[i]),
        ensures
            self.fired[i] == alone.fired[a],
    {
        self.unaffected_by_others(j, i);
        alone.alone_fires_on_difference(a);
        let before = alone.values[a - 1];
        let after = alone.values[a];
        let shared_before = self.values[j];
        let shared_after = self.values[i];
        assert(shared_before.eq_spec(&before));
        assert(shared_after.eq_spec(&after));
        if after.eq_spec(&before) {
            assert(shared_after.eq_spec(&before));
            assert(shared_after.eq_spec(&shared_before));
        }
        if shared_after.eq_spec(&shared_before) {
            assert(after.eq_spec(&shared_before));
            assert(after.eq_spec(&before));
        }
    }

    /// A consumer that has no slot in a record gets none through the looks
    /// of others.
    pub proof fn stays_unseen(self, consumer: usize, m: int)
        requires
            self.valid(),
            0 <= m <= self.values.len(),
            !self.records[0].handled.contains_key(consumer),
            forall|k: int| 0 <= k < m ==> #[trigger] self.consumers[k] != consumer,
        ensures
            !self.records[m].handled.contains_key(consumer),
        decreases m,
    {
        if m > 0 {
            self.stays_unseen(consumer, m - 1);
            assert(self.step(m - 1));
            assert(self.consumers[m - 1] != consumer);
        }
    }

    /// The first look of a consumer answers `true`, however many other
    /// consumers have looked before.
    pub proof fn first_look_fires(self, i: int)
        requires
            self.valid(),
            0 <= i < self.values.len(),
            !self.records[0].handled.contains_key(self.consumers[i]),
            forall|k: int| 0 <= k < i ==> #[trigger] self.consumers[k] != self.consumers[i],
        ensures
            self.fired[i],
    {
        self.stays_unseen(self.consumers[i], i);
        assert(self.step(i));
    }
}

/// A consumer without a slot in the record gets `true`, whatever the value
/// and whoever else has a slot.
pub proof fn unseen_consumer_fires<T>(before: RecordView<T>, consumer: usize, moved: bool, tick: u32)
    requires
        !before.handled.contains_key(consumer),
    ensures
        fires(before, consumer, moved, tick),
{
}

/// A look that finds the value equal to the canonical one gives a consumer
/// that is caught up `false` and leaves the record as it was.
pub proof fn equal_value_is_silent<T>(before: RecordView<T>, consumer: usize, tick: u32)
    requires
        caught_up(before, consumer),
    ensures
        !fires(before, consumer, false, tick),
        advanced(before, consumer, None, tick) == before,
{
    assert(before.handled.insert(consumer, before.changed) =~= before.handled);
}

/// A look by one consumer leaves the slot of every other consumer as it
/// was, and takes no consumer's slot away.
pub proof fn other_slots_untouched<T>(
    before: RecordView<T>,
    consumer: usize,
    replacement: Option<T>,
    tick: u32,
    other: usize,
)
    requires
        other != consumer,
    ensures
        ({
            let after = advanced(before, consumer, replacement, tick);
            &&& after.handled.contains_key(consumer)
            &&& after.handled.contains_key(other) == before.handled.contains_key(other)
            &&& before.handled.contains_key(other) ==> after.handled[other] == before.handled[other]
        }),
{
}

/// Merging a command into a record is a look like any other: the command's
/// consumer acknowledges the record's tick, and the record moves where the
/// command's value compared unequal. So a [`Trace`] covers merges too.
pub proof fn merge_is_a_look<T: Clone>(before: RecordView<T>, command: AttachCommand<T>, moved: bool)
    ensures
        evaluated(
            before,
            command.consumer,
            command.value,
            command.tick,
            moved,
            attached(Some(before), command, moved),
            fires(before, command.consumer, moved, command.tick),
        ),
{
}

/// The ticks of a record stay in order as long as the ticks of the looks do
/// not fall behind the record's tick: no slot gets ahead of it.
pub proof fn order_is_kept<T>(before: RecordView<T>, consumer: usize, replacement: Option<T>, tick: u32)
    requires
        in_order(before),
        before.changed <= tick,
    ensures
        in_order(advanced(before, consumer, replacement, tick)),
        caught_up(advanced(before, consumer, replacement, tick), consumer),
{
}

/// Two consumers meet a new entity in one pass, and their commands are
/// applied one after the other. Then each has a slot of its own: the first
/// consumer's still holds the tick of its own observation, the second is
/// caught up, and where the two values compare equal the first value stays
/// the canonical one and both are caught up.
pub proof fn first_observations_merge<T>(first: AttachCommand<T>, second: AttachCommand<T>, moved: bool)
    requires
        first.consumer != second.consumer,
    ensures
        ({
            let after = attached(Some(attached(None, first, true)), second, moved);
            &&& after.handled.dom() =~= set![first.consumer, second.consumer]
            &&& after.handled[first.consumer] == first.tick
            &&& caught_up(after, second.consumer)
            &&& !moved ==> after.previous == first.value && after.changed == first.tick
                && caught_up(after, first.consumer)
            &&& moved ==> after.previous == second.value && after.changed == second.tick
        }),
{
    let seed = seeded(first.consumer, first.value, first.tick);
    assert(attached(None, first, true) == seed);
}

/// Where both commands carry the tick of one pass and values that compare
/// equal, the order in which they are applied decides only whose clone
/// becomes the canonical value: ticks and slots come out the same.
pub proof fn merge_order_is_immaterial<T>(first: AttachCommand<T>, second: AttachCommand<T>)
    requires
        first.tick == second.tick,
    ensures
        ({
            let one = attached(Some(attached(None, first, true)), second, false);
            let other = attached(Some(attached(None, second, true)), first, false);
            &&& one.changed == other.changed
            &&& one.handled =~= other.handled
        }),
{
}

} // verus!
