use chanix::consumer::{Consumer, ConsumerAction, ConsumerEvent};
use chanix::pipeline::{Pipeline, TaskAction, TaskEvent};
use chanix::producer::Producer;
use chanix::producer_2::{next_emission, EmitterStep};
use chanix::types::Shared;
use crossbeam::channel::Sender;
use std::sync::atomic::{AtomicBool, Ordering};
use std::sync::Arc;

#[derive(Debug, Clone)]
pub struct EventType1 {
    pub id: u32,
    pub value: String,
}

#[derive(Debug, Clone)]
pub struct EventType2 {
    pub id: u32,
    pub amount: f64,
}

#[derive(Debug, Clone)]
pub struct EventType3 {
    pub id: u32,
    pub amount: u32,
}

#[derive(Debug, Clone)]
pub enum InputEvents {
    EventType1(EventType1),
    EventType2(EventType2),
    EventType3(EventType3),
}

#[derive(Debug, Clone, PartialEq, Default)]
pub struct AggregatedEvent {
    pub int: u32,
    pub float: f64,
    pub string: String,
    pub count: u32,
}

impl AggregatedEvent {
    pub fn new_int(int: u32, previous: &AggregatedEvent) -> Self {
        AggregatedEvent {
            int,
            float: previous.float,
            string: previous.string.clone(),
            count: previous.count + 1,
        }
    }

    pub fn new_float(float: f64, previous: &AggregatedEvent) -> Self {
        AggregatedEvent {
            int: previous.int,
            float,
            string: previous.string.clone(),
            count: previous.count + 1,
        }
    }

    pub fn new_string(string: &str, previous: &AggregatedEvent) -> Self {
        AggregatedEvent {
            int: previous.int,
            float: previous.float,
            string: string.to_string(),
            count: previous.count + 1,
        }
    }
}

/// Sends the ids of its range at once, on the calling thread.
pub struct RangeProducer {
    kind: u8,
    start_id: u32,
    end_id: u32,
}

impl RangeProducer {
    pub fn new(kind: u8, start_id: u32, end_id: u32) -> Self {
        RangeProducer { kind, start_id, end_id }
    }

    fn message(&self, id: u32) -> InputEvents {
        match self.kind {
            1 => InputEvents::EventType1(EventType1 { id, value: format!("Value {}", id) }),
            2 => InputEvents::EventType2(EventType2 { id, amount: id as f64 }),
            _ => InputEvents::EventType3(EventType3 { id, amount: id }),
        }
    }
}

impl Producer<InputEvents> for RangeProducer {
    fn answers(&self, input_event: InputEvents, claimed: bool) -> bool {
        self.matches(&input_event) == claimed
    }

    fn matches(&self, input_event: &InputEvents) -> bool {
        match (self.kind, input_event) {
            (1, InputEvents::EventType1(_)) => true,
            (2, InputEvents::EventType2(_)) => true,
            (3, InputEvents::EventType3(_)) => true,
            _ => false,
        }
    }

    fn start(&self, sender: Sender<InputEvents>, shutdown: Arc<AtomicBool>) {
        let mut previous = None;
        loop {
            match next_emission(self.start_id, self.end_id, previous, shutdown.load(Ordering::SeqCst)) {
                EmitterStep::Emit(id) => {
                    if sender.send(self.message(id)).is_err() {
                        break;
                    }
                    previous = Some(id);
                }
                EmitterStep::Finished | EmitterStep::ShutDown => break,
            }
        }
    }
}

pub fn aggregation_logic_event_type1(
    event: InputEvents,
    previous_state: &AggregatedEvent,
) -> (AggregatedEvent, Option<AggregatedEvent>) {
    if let InputEvents::EventType1(event) = event {
        let result = AggregatedEvent::new_string(&event.value.clone(), previous_state);
        let new_state = result.clone();
        (new_state, Some(result))
    } else {
        panic!("Invalid event type provided to logic_event_type1");
    }
}

pub fn aggregation_logic_event_type2(
    event: InputEvents,
    previous_state: &AggregatedEvent,
) -> (AggregatedEvent, Option<AggregatedEvent>) {
    if let InputEvents::EventType2(event) = event {
        let result = AggregatedEvent::new_float(event.amount, previous_state);
        let new_state = result.clone();
        (new_state, Some(result))
    } else {
        panic!("Invalid event type provided to logic_event_type2");
    }
}

pub fn aggregation_logic_event_type3(
    event: InputEvents,
    previous_state: &AggregatedEvent,
) -> (AggregatedEvent, Option<AggregatedEvent>) {
    if let InputEvents::EventType3(event) = event {
        let result = AggregatedEvent::new_int(event.amount, previous_state);
        let new_state = result.clone();
        (new_state, Some(result))
    } else {
        panic!("Invalid event type provided to logic_event_type3");
    }
}

static CONSUMER_1_FLAG: AtomicBool = AtomicBool::new(false);
static CONSUMER_2_FLAG: AtomicBool = AtomicBool::new(false);

fn expected_final_event() -> AggregatedEvent {
    AggregatedEvent { int: 30, float: 20.0, string: "Value 5".to_string(), count: 25 }
}

pub fn consumer_logic1(event: AggregatedEvent) {
    if event == expected_final_event() {
        CONSUMER_1_FLAG.store(true, Ordering::SeqCst);
    }
}

pub fn consumer_logic2(event: AggregatedEvent) {
    if event == expected_final_event() {
        CONSUMER_2_FLAG.store(true, Ordering::SeqCst);
    }
}

#[test]
fn pipeline_three_producers_two_consumers_test() {
    // Arrange
    let producer1 = RangeProducer::new(1, 1, 5);
    let producer2 = RangeProducer::new(2, 11, 20);
    let producer3 = RangeProducer::new(3, 21, 30);
    let consumer1 = Consumer::new("Consumer1", Shared(Arc::new(consumer_logic1)));
    let consumer2 = Consumer::new("Consumer2", Shared(Arc::new(consumer_logic2)));
    let mut pipeline = Pipeline::default();

    pipeline
        .add_producer(Shared(Arc::new(producer1)), Shared(Arc::new(aggregation_logic_event_type1)))
        .add_producer(Shared(Arc::new(producer2)), Shared(Arc::new(aggregation_logic_event_type2)))
        .add_producer(Shared(Arc::new(producer3)), Shared(Arc::new(aggregation_logic_event_type3)))
        .subscribe(consumer1)
        .subscribe(consumer2);
    let mut task = pipeline.start(AggregatedEvent::default());

    // Act
    let (sender, receiver) = crossbeam::channel::unbounded();
    let shutdown = Arc::new(AtomicBool::new(false));
    for producer in &pipeline.get_producers() {
        producer.0.start(sender.clone(), shutdown.clone());
    }
    drop(sender);
    loop {
        let event = match receiver.recv() {
            Ok(input_event) => TaskEvent::Received(input_event),
            Err(_) => TaskEvent::Disconnected,
        };
        match task.on_event(event) {
            TaskAction::Broadcast(result) => {
                for consumer in pipeline.consumers() {
                    assert_eq!(
                        consumer.handle(ConsumerEvent::Received(result.clone())),
                        ConsumerAction::Continue
                    );
                }
            }
            TaskAction::Continue => {}
            TaskAction::ChannelClosed | TaskAction::ShutDown => break,
        }
    }

    // Assert
    assert!(CONSUMER_1_FLAG.load(Ordering::SeqCst));
    assert!(CONSUMER_2_FLAG.load(Ordering::SeqCst));
    assert_eq!(*task.state(), expected_final_event());
}
