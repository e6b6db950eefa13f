use vstd::prelude::*;

use crate::types::{share, ConsumerFn, ConsumerLogic};

verus! {

/// What a consumer's worker sees next: a result, a quiet interval in which
/// it read the shutdown flag, or the end of its channel.
pub enum ConsumerEvent<Result> {
    Received(Result),
    Idle { shutdown_requested: bool },
    Disconnected,
}

/// What a consumer's worker does next.
#[derive(PartialEq, Eq, Structural, Debug, Clone, Copy)]
pub enum ConsumerAction {
    /// Keep waiting for results.
    Continue,
    /// The channel is closed: stop.
    ChannelClosed,
    /// Shutdown was requested: stop.
    ShutDown,
}

/// The action that follows `event`.
pub open spec fn consumer_decision<Result>(event: ConsumerEvent<Result>) -> ConsumerAction {
    match event {
        ConsumerEvent::Received(_) => ConsumerAction::Continue,
        ConsumerEvent::Idle { shutdown_requested } => if shutdown_requested {
            ConsumerAction::ShutDown
        } else {
            ConsumerAction::Continue
        },
        ConsumerEvent::Disconnected => ConsumerAction::ChannelClosed,
    }
}

/// The events of a worker whose channel delivers `results`, in order, and
/// then closes.
pub open spec fn drained<Result>(results: Seq<Result>) -> Seq<ConsumerEvent<Result>> {
    results.map_values(|r: Result| ConsumerEvent::Received(r)).push(ConsumerEvent::Disconnected)
}

/// A worker whose channel delivers `r_1..r_n` and then closes hands each
/// result, in order, to `handle` (which runs the consumer's logic on it), goes
/// on after each one, whatever the shutdown flag holds, and stops with
/// `ChannelClosed` at the end.
pub proof fn lemma_worker_drains_channel<Result>(results: Seq<Result>)
    ensures
        drained(results).len() == results.len() + 1,
        forall|k: int|
            0 <= k < results.len() ==> #[trigger] drained(results)[k] == ConsumerEvent::Received(results[k])
                && consumer_decision(drained(results)[k]) == ConsumerAction::Continue,
        consumer_decision(drained(results)[results.len() as int]) == ConsumerAction::ChannelClosed,
{
}

/// A named sink for aggregated results.
#[verifier::reject_recursive_types(Result)]
pub struct Consumer<Result> {
    name: String,
    result_processor: ConsumerLogic<Result>,
}

impl<Result> Consumer<Result> {
    /// The consumer's name.
    pub closed spec fn spec_name(&self) -> Seq<char> {
        self.name@
    }

    /// The logic run on each result.
    pub closed spec fn processor(&self) -> ConsumerLogic<Result> {
        self.result_processor
    }

    pub fn new(name: &str, result_processor: ConsumerLogic<Result>) -> (consumer: Self)
        ensures
            consumer.spec_name() == name@,
            consumer.processor() == result_processor,
    {
        Consumer { name: name.to_owned(), result_processor }
    }

    pub fn name(&self) -> (name: &str)
        ensures
            name@ == self.spec_name(),
    {
        self.name.as_str()
    }

    /// Handles one event: a received result goes to the consumer's logic;
    /// the worker stops when its channel closes, or when it finds shutdown
    /// requested while idle.
    pub fn handle(&self, event: ConsumerEvent<Result>) -> (action: ConsumerAction)
        requires
            event matches ConsumerEvent::Received(r) ==> self.processor().0.accepts(r),
        ensures
            action == consumer_decision(event),
            event matches ConsumerEvent::Received(r) ==> self.processor().0.processed(r),
    {
        match event {
            ConsumerEvent::Received(result_event) => {
                self.result_processor.0.process(result_event);
                ConsumerAction::Continue
            },
            ConsumerEvent::Idle { shutdown_requested } => {
                if shutdown_requested {
                    ConsumerAction::ShutDown
                } else {
                    ConsumerAction::Continue
                }
            },
            ConsumerEvent::Disconnected => ConsumerAction::ChannelClosed,
        }
    }
}

impl<Result> Clone for Consumer<Result> {
    fn clone(&self) -> (copy: Self)
        ensures
            copy.spec_name() == self.spec_name(),
            copy.processor() == self.processor(),
    {
        Consumer { name: self.name.clone(), result_processor: share(&self.result_processor) }
    }
}

} // verus!
