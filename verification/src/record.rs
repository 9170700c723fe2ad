//! The tracking record that is attached to an entity.

use vstd::prelude::*;
use vstd::std_specs::cmp::PartialEqSpec;
use intmap::IntMap;
use crate::handled::{acknowledgements, empty_table, entry_count, entry_limit, table_get, table_insert, table_len};
use crate::model::{advanced, caught_up, evaluated, fires, in_order, seeded, RecordView};

verus! {

/// The side record of one entity for one tracked component type: the
/// canonical value, the tick at which it last changed, and what each
/// consumer has acknowledged.
pub struct PreviousValue<T> {
    previous: T,
    changed: u32,
    handled: IntMap<usize, u32>,
}

impl<T> View for PreviousValue<T> {
    type V = RecordView<T>;

    closed spec fn view(&self) -> RecordView<T> {
        RecordView {
            previous: self.previous,
            changed: self.changed,
            handled: acknowledgements(self.handled),
        }
    }
}

impl<T> PreviousValue<T> {
    /// The number of consumers that have a slot in the record.
    pub closed spec fn consumers_spec(&self) -> nat {
        entry_count(self.handled)
    }

    /// The number of slots once `consumer` has one: one more where it had
    /// none.
    pub open spec fn consumers_after(&self, consumer: usize) -> nat {
        if self@.handled.contains_key(consumer) {
            self.consumers_spec()
        } else {
            self.consumers_spec() + 1
        }
    }

    /// The acknowledgement table can take one more consumer.
    pub open spec fn has_room_spec(&self) -> bool {
        self.consumers_spec() <= entry_limit()
    }

    /// Creates the record of an entity's first observation: `value` becomes
    /// the canonical value, and `consumer` has acknowledged `tick`.
    pub fn new(consumer: usize, value: T, tick: u32) -> (record: Self)
        ensures
            record.consumers_spec() == 1,
            record@ == seeded(consumer, value, tick),
            caught_up(record@, consumer),
            in_order(record@),
    {
        let mut handled = empty_table();
        table_insert(&mut handled, consumer, tick);
        PreviousValue { previous: value, changed: tick, handled }
    }

    /// The canonical value.
    pub fn previous(&self) -> (value: &T)
        ensures
            *value == self@.previous,
    {
        &self.previous
    }

    /// The tick at which the canonical value last changed.
    pub fn changed(&self) -> (tick: u32)
        ensures
            tick == self@.changed,
    {
        self.changed
    }

    /// The tick that `consumer` has acknowledged, or `None` where it has
    /// never evaluated the entity.
    pub fn acknowledged(&self, consumer: usize) -> (tick: Option<u32>)
        ensures
            tick == (if self@.handled.contains_key(consumer) {
                Some(self@.handled[consumer])
            } else {
                None
            }),
    {
        table_get(&self.handled, consumer)
    }

    /// The number of consumers that have a slot in the record.
    pub fn consumers(&self) -> (n: usize)
        ensures
            n == self.consumers_spec(),
    {
        table_len(&self.handled)
    }

    /// Whether the acknowledgement table can take one more consumer.
    pub fn has_room(&self) -> (room: bool)
        ensures
            room == self.has_room_spec(),
    {
        table_len(&self.handled) <= usize::MAX / 1000
    }
}

impl<T> PreviousValue<T> {
    /// The step that every look at a record ends with. A `replacement`
    /// becomes the canonical value, changed at `tick`. Then `consumer`
    /// acknowledges the record's tick; the answer is `true` unless it had
    /// acknowledged that tick before.
    pub fn settle(&mut self, consumer: usize, replacement: Option<T>, tick: u32) -> (fired: bool)
        requires
            old(self).has_room_spec(),
        ensures
            final(self).consumers_spec() == old(self).consumers_after(consumer),
            final(self)@ == advanced(old(self)@, consumer, replacement, tick),
            fired == fires(old(self)@, consumer, replacement.is_some(), tick),
            caught_up(final(self)@, consumer),
            in_order(old(self)@) && old(self)@.changed <= tick ==> in_order(final(self)@),
    {
        match replacement {
            Some(value) => {
                self.previous = value;
                self.changed = tick;
            },
            None => {},
        }
        let changed: u32 = self.changed;
        let fired = match table_get(&self.handled, consumer) {
            Some(seen) => seen != changed,
            None => true,
        };
        if fired {
            table_insert(&mut self.handled, consumer, changed);
        } else {
            assert(self@.handled =~= old(self)@.handled.insert(consumer, changed));
            assert(self.consumers_spec() == old(self).consumers_spec());
        }
        fired
    }
}

impl<T: PartialEq + Clone> PreviousValue<T> {
    /// One evaluation by `consumer`, which sees `value` at `tick`.
    ///
    /// Where `value` compares unequal to the canonical value, the record
    /// takes a clone of it and `tick`. The consumer then acknowledges the
    /// record's tick. The answer is `true` unless the consumer had
    /// acknowledged that tick before the call.
    pub fn evaluate(&mut self, consumer: usize, value: &T, tick: u32) -> (fired: bool)
        requires
            old(self).has_room_spec(),
        ensures
            final(self).consumers_spec() == old(self).consumers_after(consumer),
            evaluated(old(self)@, consumer, *value, tick, true, final(self)@, fired)
                || evaluated(old(self)@, consumer, *value, tick, false, final(self)@, fired),
            T::obeys_eq_spec() ==> evaluated(
                old(self)@,
                consumer,
                *value,
                tick,
                !value.eq_spec(&old(self)@.previous),
                final(self)@,
                fired,
            ),
            !old(self)@.handled.contains_key(consumer) ==> fired,
            caught_up(final(self)@, consumer),
            in_order(old(self)@) && old(self)@.changed <= tick ==> in_order(final(self)@),
    {
        let replacement = if *value != self.previous {
            Some(value.clone())
        } else {
            None
        };
        self.settle(consumer, replacement, tick)
    }
}

} // verus!
