//! The filter itself: what one consumer decides about one entity.

use core::marker::PhantomData;
use vstd::prelude::*;
use vstd::std_specs::cmp::PartialEqSpec;
use crate::command::AttachCommand;
use crate::model::{caught_up, evaluated, in_order};
use crate::record::PreviousValue;
use crate::registry::NextQueryId;

verus! {

/// A filter on a component of type `T` that retains an entity only the
/// first time after the component was added, or was modified so that the
/// new value compares unequal to the previous one.
///
/// Writing to a component without changing its value is not a change.
pub struct EqChanged<T>(PhantomData<T>);

/// What a filter keeps from its one-time setup: the consumer's identity.
pub struct EqChangedState {
    /// The consumer's identity.
    pub query_id: usize,
}

/// What a filter keeps for one pass over the entities: the consumer's
/// identity and the tick of the pass.
pub struct EqChangedFetch {
    /// The consumer's identity.
    pub query_id: usize,
    /// The tick of the pass.
    pub this_run: u32,
}

impl<T> EqChanged<T> {
    /// The one-time setup of a filter: registers it as a consumer.
    pub fn init_state(registry: &mut NextQueryId) -> (state: EqChangedState)
        requires
            old(registry)@ < usize::MAX,
        ensures
            state.query_id == old(registry)@,
            final(registry)@ == old(registry)@ + 1,
    {
        EqChangedState { query_id: registry.register() }
    }

    /// The setup of one pass at tick `this_run`.
    pub fn init_fetch(state: &EqChangedState, this_run: u32) -> (fetch: EqChangedFetch)
        ensures
            fetch.query_id == state.query_id,
            fetch.this_run == this_run,
    {
        EqChangedFetch { query_id: state.query_id, this_run }
    }

}

impl<T: PartialEq + Clone> EqChanged<T> {
    /// Decides whether the consumer retains `entity`, and what is left to
    /// do for it after the pass.
    ///
    /// `written` is the host's answer to "was the component written since
    /// this consumer last ran", `record` the entity's tracking record where
    /// it has one, and `value` the component's current value.
    ///
    /// An entity that was not written is rejected and nothing is touched.
    /// An entity without a record is retained, and the command that
    /// attaches this first observation is handed back for the host to
    /// queue. Otherwise the record is evaluated for this consumer.
    pub fn filter_fetch(
        fetch: &EqChangedFetch,
        entity: u64,
        written: bool,
        record: Option<&mut PreviousValue<T>>,
        value: &T,
    ) -> (out: (bool, Option<AttachCommand<T>>))
        requires
            written && record.is_some() ==> record.unwrap().has_room_spec(),
        ensures
            !written ==> !out.0 && out.1.is_none(),
            !written && record.is_some() ==> *final(record.unwrap()) == *record.unwrap(),
            written && record.is_none() ==> out.0 && out.1.is_some() && ({
                let command = out.1.unwrap();
                &&& command.entity == entity
                &&& command.consumer == fetch.query_id
                &&& command.tick == fetch.this_run
                &&& cloned(*value, command.value)
            }),
            written && record.is_some() ==> out.1.is_none() && ({
                let before = record.unwrap()@;
                let after = final(record.unwrap())@;
                let consumer = fetch.query_id;
                let tick = fetch.this_run;
                &&& evaluated(before, consumer, *value, tick, true, after, out.0)
                    || evaluated(before, consumer, *value, tick, false, after, out.0)
                &&& T::obeys_eq_spec() ==> evaluated(
                    before,
                    consumer,
                    *value,
                    tick,
                    !value.eq_spec(&before.previous),
                    after,
                    out.0,
                )
                &&& final(record.unwrap()).consumers_spec() == record.unwrap().consumers_after(
                    consumer,
                )
                &&& !before.handled.contains_key(consumer) ==> out.0
                &&& caught_up(after, consumer)
                &&& in_order(before) && before.changed <= tick ==> in_order(after)
            }),
    {
        if !written {
            return (false, None);
        }
        match record {
            None => {
                let command = AttachCommand {
                    entity,
                    consumer: fetch.query_id,
                    tick: fetch.this_run,
                    value: value.clone(),
                };
                (true, Some(command))
            },
            Some(previous_value) => {
                let fired = previous_value.evaluate(fetch.query_id, value, fetch.this_run);
                (fired, None)
            },
        }
    }
}

} // verus!
