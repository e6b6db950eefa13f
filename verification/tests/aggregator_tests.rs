use chanix::aggregator::Aggregator;
use chanix::producer::Producer;
use chanix::types::Shared;
use crossbeam::channel::Sender;
use std::sync::atomic::AtomicBool;
use std::sync::Arc;

/// Claims the events that are multiples of its divisor.
struct Multiples {
    divisor: u32,
}

impl Producer<u32> for Multiples {
    fn answers(&self, input_event: u32, claimed: bool) -> bool {
        self.matches(&input_event) == claimed
    }

    fn matches(&self, input_event: &u32) -> bool {
        input_event % self.divisor == 0
    }

    fn start(&self, _sender: Sender<u32>, _shutdown: Arc<AtomicBool>) {}
}

fn add(state: u32) -> impl Fn(u32, &u32) -> (u32, Option<String>) + Send + Sync {
    move |input, previous| (previous + input + state, Some(format!("add {}", input)))
}

fn times(factor: u32) -> impl Fn(u32, &u32) -> (u32, Option<String>) + Send + Sync {
    move |input, previous| (previous * factor, if input > 100 { None } else { Some(format!("times {}", input)) })
}

fn two_producers() -> Aggregator<u32, u32, String> {
    let mut aggregator: Aggregator<u32, u32, String> = Aggregator::default();
    aggregator
        .add_producer(Shared(Arc::new(Multiples { divisor: 2 })), Shared(Arc::new(add(0))))
        .add_producer(Shared(Arc::new(Multiples { divisor: 3 })), Shared(Arc::new(times(10))));
    aggregator
}

#[test]
fn default_aggregator_has_no_producers() {
    let aggregator: Aggregator<u32, u32, String> = Aggregator::default();
    assert_eq!(aggregator.get_producers().len(), 0);
    assert_eq!(aggregator.get_producers_and_logic().len(), 0);
}

#[test]
fn add_producer_keeps_order() {
    let aggregator = two_producers();
    let producers = aggregator.get_producers();
    assert_eq!(producers.len(), 2);
    assert!(producers[0].0.matches(&4));
    assert!(!producers[0].0.matches(&9));
    assert!(producers[1].0.matches(&9));
    assert!(!producers[1].0.matches(&4));
    let entries = aggregator.get_producers_and_logic();
    assert_eq!(entries.len(), 2);
    assert_eq!(entries[1].1 .0.apply(3, &7), (70, Some("times 3".to_string())));
}

#[test]
fn first_producer_that_claims_wins() {
    let aggregator = two_producers();
    // 6 is claimed by both; the one added first decides.
    assert_eq!(aggregator.find_logic(&6), Some(0));
    let out = aggregator.aggregate_event(6, &Arc::new(5));
    assert_eq!(out, (11, Some("add 6".to_string())));
}

#[test]
fn second_producer_gets_its_events() {
    let aggregator = two_producers();
    assert_eq!(aggregator.find_logic(&9), Some(1));
    assert_eq!(aggregator.aggregate_event(9, &Arc::new(5)), (50, Some("times 9".to_string())));
    assert_eq!(aggregator.aggregate_event(201, &Arc::new(5)), (50, None));
}

#[test]
fn unclaimed_event_keeps_state_and_gives_nothing() {
    let aggregator = two_producers();
    assert_eq!(aggregator.find_logic(&7), None);
    assert_eq!(aggregator.aggregate_event(7, &Arc::new(42)), (42, None));
}

#[test]
fn routed_aggregation_follows_the_route() {
    let aggregator = two_producers();
    assert_eq!(aggregator.aggregate_routed(Some(1), 4, &Arc::new(3)), (30, Some("times 4".to_string())));
    assert_eq!(aggregator.aggregate_routed(Some(0), 4, &Arc::new(3)), (7, Some("add 4".to_string())));
    assert_eq!(aggregator.aggregate_routed(None, 4, &Arc::new(3)), (3, None));
}

#[test]
fn cloned_aggregator_has_the_same_entries() {
    let aggregator = two_producers();
    let copy = aggregator.clone();
    assert_eq!(copy.get_producers().len(), 2);
    assert_eq!(copy.find_logic(&9), Some(1));
    assert_eq!(copy.aggregate_event(2, &Arc::new(1)), (3, Some("add 2".to_string())));
}
