//! The mathematical model of a tracking record and of one evaluation.

use vstd::prelude::*;
use vstd::std_specs::cmp::PartialEqSpec;

verus! {

/// What a tracking record holds, as plain mathematical values.
pub struct RecordView<T> {
    /// The canonical value: the latest value that any consumer observed.
    pub previous: T,
    /// The tick at which the canonical value last changed.
    pub changed: u32,
    /// For each consumer that has evaluated the entity, the tick it has
    /// acknowledged.
    pub handled: Map<usize, u32>,
}

/// A consumer is caught up when it has acknowledged the tick at which the
/// canonical value last changed.
pub open spec fn caught_up<T>(record: RecordView<T>, consumer: usize) -> bool {
    record.handled.contains_key(consumer) && record.handled[consumer] == record.changed
}

/// No consumer has acknowledged a tick later than the one at which the
/// canonical value last changed.
pub open spec fn in_order<T>(record: RecordView<T>) -> bool {
    forall|c: usize| #[trigger]
        record.handled.contains_key(c) ==> record.handled[c] <= record.changed
}

/// The record after `consumer` has looked at it at `tick`. `replacement` is
/// the new canonical value where the observed value compared unequal to the
/// old one, and `None` where it compared equal: only with a replacement does
/// the record's tick move to `tick`. The consumer acknowledges the record's
/// tick either way.
pub open spec fn advanced<T>(
    before: RecordView<T>,
    consumer: usize,
    replacement: Option<T>,
    tick: u32,
) -> RecordView<T> {
    let changed = if replacement.is_some() { tick } else { before.changed };
    RecordView {
        previous: match replacement {
            Some(value) => value,
            None => before.previous,
        },
        changed,
        handled: before.handled.insert(consumer, changed),
    }
}

/// The filter's answer for `consumer`: `true` unless the consumer has
/// already acknowledged the tick that the record has after this look.
/// `moved` says whether the observed value compared unequal to the
/// canonical value.
pub open spec fn fires<T>(before: RecordView<T>, consumer: usize, moved: bool, tick: u32) -> bool {
    let changed = if moved { tick } else { before.changed };
    !(before.handled.contains_key(consumer) && before.handled[consumer] == changed)
}

/// The relation between a record before and after one evaluation by
/// `consumer`, which sees `value` at `tick`. Where the value moved, the
/// record holds a clone of it afterwards.
pub open spec fn evaluated<T: Clone>(
    before: RecordView<T>,
    consumer: usize,
    value: T,
    tick: u32,
    moved: bool,
    after: RecordView<T>,
    fired: bool,
) -> bool {
    &&& moved ==> cloned(value, after.previous)
    &&& after == advanced(before, consumer, if moved { Some(after.previous) } else { None }, tick)
    &&& fired == fires(before, consumer, moved, tick)
}

/// The record that the first observation of an entity creates: `stored` is
/// the canonical value, and `consumer` alone has acknowledged `tick`.
pub open spec fn seeded<T>(consumer: usize, stored: T, tick: u32) -> RecordView<T> {
    RecordView {
        previous: stored,
        changed: tick,
        handled: Map::<usize, u32>::empty().insert(consumer, tick),
    }
}

/// The `==` of `T` is the equivalence relation `eq_spec`, and a clone
/// compares equal to what it was cloned from.
pub open spec fn lawful<T: PartialEq + Clone>() -> bool {
    &&& T::obeys_eq_spec()
    &&& forall|a: T| #[trigger] a.eq_spec(&a)
    &&& forall|a: T, b: T| #[trigger] a.eq_spec(&b) ==> b.eq_spec(&a)
    &&& forall|a: T, b: T, c: T| #[trigger] a.eq_spec(&b) && #[trigger] b.eq_spec(&c) ==> a.eq_spec(&c)
    &&& forall|a: T, b: T| #[trigger] cloned(a, b) ==> a.eq_spec(&b)
}

} // verus!
