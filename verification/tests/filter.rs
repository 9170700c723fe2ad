use bevy_eqchanged::{AttachCommand, EqChanged, EqChangedFetch, EqChangedState, NextQueryId, PreviousValue};

#[derive(PartialEq, Clone, Debug)]
struct A(usize);

/// One entity as a host would keep it: the live value, the record once it
/// is attached, and the commands queued during the current pass.
struct Host {
    value: A,
    record: Option<PreviousValue<A>>,
    queue: Vec<AttachCommand<A>>,
    tick: u32,
}

impl Host {
    fn new(value: A) -> Self {
        Host { value, record: None, queue: Vec::new(), tick: 0 }
    }

    /// Runs one consumer's filter over the entity, at a tick of its own.
    fn look(&mut self, state: &EqChangedState, written: bool) -> bool {
        self.tick += 1;
        let fetch = EqChanged::<A>::init_fetch(state, self.tick);
        if let Some(record) = &self.record {
            assert!(record.has_room());
        }
        let (fired, command) =
            EqChanged::<A>::filter_fetch(&fetch, 42, written, self.record.as_mut(), &self.value);
        if let Some(command) = command {
            self.queue.push(command);
        }
        fired
    }

    /// Ends the pass: applies the queued commands in the order they came.
    fn flush(&mut self) {
        for command in self.queue.drain(..) {
            if let Some(record) = &self.record {
                assert!(record.has_room());
            }
            if let Some(created) = command.apply(self.record.as_mut()) {
                self.record = Some(created);
            }
        }
    }
}

fn two_consumers() -> (EqChangedState, EqChangedState) {
    let mut registry = NextQueryId::new();
    let first = EqChanged::<A>::init_state(&mut registry);
    let second = EqChanged::<A>::init_state(&mut registry);
    (first, second)
}

#[test]
fn two_consumers_follow_one_component() {
    let (c0, c1) = two_consumers();
    let mut host = Host::new(A(0));

    // Pass 1: both see A(0) for the first time.
    assert!(host.look(&c0, true));
    assert!(host.look(&c1, true));
    host.flush();

    // Passes without a change: the component is touched, the value stays.
    for _ in 0..5 {
        assert!(!host.look(&c0, true));
        assert!(!host.look(&c1, true));
        host.flush();
    }

    // The value becomes A(1): each consumer reports it once.
    host.value = A(1);
    assert!(host.look(&c0, true));
    assert!(host.look(&c1, true));
    host.flush();
    for _ in 0..3 {
        assert!(!host.look(&c0, true));
        assert!(!host.look(&c1, true));
        host.flush();
    }

    // And once more for the next real change.
    host.value = A(2);
    assert!(host.look(&c1, true));
    assert!(host.look(&c0, true));
    assert!(!host.look(&c1, true));
    assert!(!host.look(&c0, true));
}

#[test]
fn unwritten_entity_is_rejected_and_untouched() {
    let (c0, c1) = two_consumers();
    let mut host = Host::new(A(7));
    assert!(!host.look(&c0, false));
    assert!(host.queue.is_empty());
    assert!(host.record.is_none());

    assert!(host.look(&c0, true));
    host.flush();
    host.value = A(8);
    assert!(!host.look(&c1, false));
    let record = host.record.as_ref().unwrap();
    assert_eq!(record.previous(), &A(7));
    assert_eq!(record.changed(), 2);
    assert_eq!(record.acknowledged(c1.query_id), None);
    assert_eq!(record.consumers(), 1);
}

#[test]
fn first_observation_hands_back_the_command() {
    let (_, c1) = two_consumers();
    let fetch = EqChanged::<A>::init_fetch(&c1, 9);
    assert_eq!(fetch.query_id, 1);
    assert_eq!(fetch.this_run, 9);
    let (fired, command) = EqChanged::<A>::filter_fetch(&fetch, 1234, true, None, &A(5));
    assert!(fired);
    let command = command.unwrap();
    assert_eq!(command.entity, 1234);
    assert_eq!(command.consumer, 1);
    assert_eq!(command.tick, 9);
    assert_eq!(command.value, A(5));
}

#[test]
fn late_consumer_fires_on_its_first_look() {
    let (c0, c1) = two_consumers();
    let mut host = Host::new(A(3));
    assert!(host.look(&c0, true));
    host.flush();
    assert!(!host.look(&c0, true));
    assert!(!host.look(&c0, true));
    // The record exists and the value has not changed; it is still the
    // second consumer's first look.
    assert!(host.look(&c1, true));
    assert!(!host.look(&c1, true));
    let record = host.record.as_ref().unwrap();
    assert_eq!(record.changed(), 1);
    assert_eq!(record.acknowledged(c0.query_id), Some(1));
    assert_eq!(record.acknowledged(c1.query_id), Some(1));
    assert_eq!(record.consumers(), 2);
}

#[test]
fn writing_the_same_value_back_never_fires() {
    let (c0, c1) = two_consumers();
    let mut host = Host::new(A(11));
    host.look(&c0, true);
    host.look(&c1, true);
    host.flush();
    for _ in 0..10 {
        host.value = A(11);
        assert!(!host.look(&c0, true));
        assert!(!host.look(&c1, true));
    }
    let record = host.record.as_ref().unwrap();
    assert_eq!(record.changed(), 1);
    assert_eq!(record.previous(), &A(11));
}

fn answers_of_first(values: &[usize], with_second: bool) -> Vec<bool> {
    let (c0, c1) = two_consumers();
    let mut host = Host::new(A(values[0]));
    let mut answers = Vec::new();
    for value in values {
        host.value = A(*value);
        answers.push(host.look(&c0, true));
        if with_second {
            host.look(&c1, true);
        }
        host.flush();
    }
    answers
}

#[test]
fn a_second_consumer_does_not_alter_the_answers_of_the_first() {
    let values = [0, 0, 1, 1, 1, 2, 0, 0, 5, 5, 0];
    let alone = answers_of_first(&values, false);
    let shared = answers_of_first(&values, true);
    assert_eq!(alone, shared);
    assert_eq!(
        alone,
        vec![true, false, true, false, false, true, true, false, true, false, true]
    );
}

#[test]
fn a_value_that_went_and_came_back_fires_for_who_missed_it() {
    let (c0, c1) = two_consumers();
    let mut host = Host::new(A(0));
    host.look(&c0, true);
    host.look(&c1, true);
    host.flush();
    // Only the second consumer sees A(1); the first finds A(0) again.
    host.value = A(1);
    assert!(host.look(&c1, true));
    host.value = A(0);
    assert!(host.look(&c0, true));
    assert!(!host.look(&c0, true));
    assert!(host.look(&c1, true));
}

#[test]
fn two_first_observations_in_one_pass_do_not_clobber_each_other() {
    let (c0, c1) = two_consumers();
    let mut host = Host::new(A(0));
    assert!(host.look(&c0, true));
    assert!(host.look(&c1, true));
    assert_eq!(host.queue.len(), 2);
    host.flush();
    let record = host.record.as_ref().unwrap();
    assert_eq!(record.consumers(), 2);
    assert_eq!(record.previous(), &A(0));
    assert_eq!(record.changed(), 1);
    assert_eq!(record.acknowledged(c0.query_id), Some(1));
    assert_eq!(record.acknowledged(c1.query_id), Some(1));
    assert_eq!(record.acknowledged(2), None);
}

#[test]
fn merged_command_with_another_value_moves_the_record() {
    let first = AttachCommand { entity: 1, consumer: 0, tick: 4, value: A(1) };
    let second = AttachCommand { entity: 1, consumer: 1, tick: 6, value: A(2) };
    let mut record = first.apply(None).unwrap();
    assert!(second.apply(Some(&mut record)).is_none());
    assert_eq!(record.previous(), &A(2));
    assert_eq!(record.changed(), 6);
    assert_eq!(record.acknowledged(0), Some(4));
    assert_eq!(record.acknowledged(1), Some(6));
}

#[test]
fn seed_and_merge_are_the_two_arms_of_apply() {
    let record = AttachCommand { entity: 3, consumer: 5, tick: 2, value: A(9) }.seed();
    assert_eq!(record.previous(), &A(9));
    assert_eq!(record.changed(), 2);
    assert_eq!(record.acknowledged(5), Some(2));
    assert_eq!(record.consumers(), 1);

    let mut record = record;
    AttachCommand { entity: 3, consumer: 5, tick: 3, value: A(9) }.merge(&mut record);
    assert_eq!(record.changed(), 2);
    assert_eq!(record.acknowledged(5), Some(2));
    assert_eq!(record.consumers(), 1);
    AttachCommand { entity: 3, consumer: 6, tick: 4, value: A(9) }.merge(&mut record);
    assert_eq!(record.acknowledged(6), Some(2));
    assert_eq!(record.consumers(), 2);
}
