//! The deferred attach command: what a consumer queues when it meets an
//! entity that has no tracking record yet.

use vstd::prelude::*;
use vstd::std_specs::cmp::PartialEqSpec;
use crate::model::{advanced, seeded, RecordView};
use crate::record::PreviousValue;

verus! {

/// A first observation, to be attached to its entity once the current pass
/// over the entities has ended.
pub struct AttachCommand<T> {
    /// The entity that was observed, by its bits.
    pub entity: u64,
    /// The consumer that observed it.
    pub consumer: usize,
    /// The tick at which it did.
    pub tick: u32,
    /// A clone of the value that it saw.
    pub value: T,
}

/// The record that an entity has after `command` was applied to it. On an
/// entity without a record the command seeds one. Where an earlier command
/// has attached a record already, the command is merged into it: its value
/// replaces the canonical one where `moved` says that the two compared
/// unequal, and its consumer gets a slot of its own.
pub open spec fn attached<T>(
    existing: Option<RecordView<T>>,
    command: AttachCommand<T>,
    moved: bool,
) -> RecordView<T> {
    match existing {
        None => seeded(command.consumer, command.value, command.tick),
        Some(record) => advanced(
            record,
            command.consumer,
            if moved { Some(command.value) } else { None },
            command.tick,
        ),
    }
}

impl<T: PartialEq + Clone> AttachCommand<T> {
    /// Applies the command to an entity on which a record is attached.
    pub fn merge(self, record: &mut PreviousValue<T>)
        requires
            old(record).has_room_spec(),
        ensures
            final(record).consumers_spec() == old(record).consumers_after(self.consumer),
            final(record)@ == attached(Some(old(record)@), self, true)
                || final(record)@ == attached(Some(old(record)@), self, false),
            T::obeys_eq_spec() ==> final(record)@ == attached(
                Some(old(record)@),
                self,
                !self.value.eq_spec(&old(record)@.previous),
            ),
    {
        let replacement = if self.value != *record.previous() {
            Some(self.value)
        } else {
            None
        };
        record.settle(self.consumer, replacement, self.tick);
    }

    /// Applies the command to an entity that has no record yet.
    pub fn seed(self) -> (record: PreviousValue<T>)
        ensures
            record.consumers_spec() == 1,
            record@ == attached(None, self, true),
            record@ == attached(None, self, false),
    {
        PreviousValue::new(self.consumer, self.value, self.tick)
    }

    /// Applies the command to an entity, whatever it holds: merges into the
    /// record in `slot`, or hands back the record to attach where there is
    /// none.
    pub fn apply(self, slot: Option<&mut PreviousValue<T>>) -> (created: Option<PreviousValue<T>>)
        requires
            slot.is_some() ==> slot.unwrap().has_room_spec(),
        ensures
            slot.is_none() ==> created.is_some() && created.unwrap().consumers_spec() == 1
                && created.unwrap()@ == attached(None, self, true),
            slot.is_some() ==> created.is_none() && ({
                let before = Some(slot.unwrap()@);
                let after = final(slot.unwrap())@;
                &&& final(slot.unwrap()).consumers_spec() == slot.unwrap().consumers_after(
                    self.consumer,
                )
                &&& after == attached(before, self, true) || after == attached(before, self, false)
                &&& T::obeys_eq_spec() ==> after == attached(
                    before,
                    self,
                    !self.value.eq_spec(&slot.unwrap()@.previous),
                )
            }),
    {
        match slot {
            Some(record) => {
                self.merge(record);
                None
            },
            None => Some(self.seed()),
        }
    }
}

} // verus!
