use chanix::producer_2::{next_emission, EmitterStep, Producer2};

fn emitted(start_id: u32, end_id: u32) -> Vec<u32> {
    let mut ids = Vec::new();
    let mut previous = None;
    while let EmitterStep::Emit(id) = next_emission(start_id, end_id, previous, false) {
        ids.push(id);
        previous = Some(id);
    }
    ids
}

#[test]
fn producer2_new_keeps_its_fields() {
    let producer = Producer2::new("Producer 2", 11, 20);
    assert_eq!(producer.name(), "Producer 2");
    assert_eq!(producer.next_step(None, false), EmitterStep::Emit(11));
    assert_eq!(producer.next_step(Some(19), false), EmitterStep::Emit(20));
    assert_eq!(producer.next_step(Some(20), false), EmitterStep::Finished);
    assert_eq!(producer.clone().next_step(Some(15), false), EmitterStep::Emit(16));
}

#[test]
fn producer_emits_its_range_in_order() {
    assert_eq!(emitted(11, 20), (11..=20).collect::<Vec<u32>>());
    assert_eq!(emitted(1, 5), vec![1, 2, 3, 4, 5]);
    assert_eq!(emitted(7, 7), vec![7]);
}

#[test]
fn producer_with_empty_range_finishes_at_once() {
    assert_eq!(emitted(5, 4), Vec::<u32>::new());
    assert_eq!(next_emission(5, 4, None, true), EmitterStep::Finished);
}

#[test]
fn producer_range_may_end_at_the_largest_id() {
    assert_eq!(emitted(u32::MAX - 2, u32::MAX), vec![u32::MAX - 2, u32::MAX - 1, u32::MAX]);
}

#[test]
fn producer_stops_when_shutdown_is_requested() {
    assert_eq!(next_emission(1, 5, Some(3), true), EmitterStep::ShutDown);
    assert_eq!(next_emission(1, 5, None, true), EmitterStep::ShutDown);
    // Past the end there is nothing left to stop.
    assert_eq!(next_emission(1, 5, Some(5), true), EmitterStep::Finished);
}

#[test]
fn producer_interrupted_by_shutdown_sent_a_prefix() {
    let flags = [false, false, false, true];
    let mut ids = Vec::new();
    let mut previous = None;
    let mut last = EmitterStep::Finished;
    for shutdown_requested in flags {
        last = next_emission(11, 20, previous, shutdown_requested);
        match last {
            EmitterStep::Emit(id) => {
                ids.push(id);
                previous = Some(id);
            }
            _ => break,
        }
    }
    assert_eq!(ids, vec![11, 12, 13]);
    assert_eq!(last, EmitterStep::ShutDown);
}
