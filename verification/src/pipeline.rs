use std::sync::Arc;
use vstd::prelude::*;

use crate::aggregator::Aggregator;
use crate::consumer::Consumer;
use crate::types::{AggregationLogic, ArcedProducer};

verus! {

/// What the pipeline's worker sees next: an input event, a quiet interval in
/// which it read the shutdown flag, or the end of the producers' channel.
pub enum TaskEvent<Input> {
    Received(Input),
    Idle { shutdown_requested: bool },
    Disconnected,
}

/// What the pipeline's worker does next.
pub enum TaskAction<Result> {
    /// Send this result to every consumer.
    Broadcast(Result),
    /// Keep waiting for events.
    Continue,
    /// The producers' channel is closed: stop.
    ChannelClosed,
    /// Shutdown was requested: stop.
    ShutDown,
}

/// The action that follows an aggregation that gave `result`.
pub open spec fn broadcast_of<Result>(result: Option<Result>) -> TaskAction<Result> {
    match result {
        Some(r) => TaskAction::Broadcast(r),
        None => TaskAction::Continue,
    }
}

/// Why a pipeline cannot be cloned.
#[derive(PartialEq, Eq, Structural, Debug, Clone, Copy)]
pub enum CloneRefusal {
    /// The pipeline has been started.
    Running,
    /// Consumers have subscribed to the pipeline.
    HasConsumers,
}

/// The state before the event at position `i` of a run that started from
/// `initial` and whose aggregations gave `outs`.
pub open spec fn state_before<State, Result>(initial: State, outs: Seq<(State, Option<Result>)>, i: int) -> State {
    if i <= 0 {
        initial
    } else {
        outs[i - 1].0
    }
}

/// `outs` are the outcomes of folding `events`, one after another, into
/// `initial`: each event is aggregated, along the route the producers give
/// it, on the state that the event before it left.
pub open spec fn folds<Input, State: Clone, Result>(
    aggregator: Aggregator<Input, State, Result>,
    initial: State,
    events: Seq<Input>,
    outs: Seq<(State, Option<Result>)>,
) -> bool {
    &&& outs.len() == events.len()
    &&& forall|i: int|
        0 <= i < events.len() ==> #[trigger] aggregator.aggregates_to(
            events[i],
            state_before(initial, outs, i),
            outs[i],
        )
}

/// The results that a run broadcasts, in the order of its events: the
/// result of each aggregation that gave one.
pub open spec fn broadcasts<State, Result>(outs: Seq<(State, Option<Result>)>) -> Seq<Result>
    decreases outs.len(),
{
    if outs.len() == 0 {
        Seq::empty()
    } else {
        broadcasts(outs.drop_last()) + match outs.last().1 {
            Some(r) => seq![r],
            None => Seq::empty(),
        }
    }
}

/// A run of the pipeline's worker starts from the initial state, with no
/// event folded and nothing broadcast.
pub proof fn lemma_run_starts<Input, State: Clone, Result>(
    aggregator: Aggregator<Input, State, Result>,
    initial: State,
)
    ensures
        folds(aggregator, initial, Seq::<Input>::empty(), Seq::<(State, Option<Result>)>::empty()),
        state_before(initial, Seq::<(State, Option<Result>)>::empty(), 0) == initial,
        broadcasts(Seq::<(State, Option<Result>)>::empty()) == Seq::<Result>::empty(),
{
}

/// A run of the pipeline's worker grows one event at a time: when the task
/// holds the state that folding `events` into `initial` left, and `on_event`
/// aggregates one more event `e` to `out` (its `ensures`), then the longer run
/// folds too, the task's new state is what it left, and the results
/// broadcast are those of the shorter run followed by the new one, if any.
/// By induction, a worker that receives `e_1..e_n` ends in the state `s_n` of
/// the fold and broadcasts exactly the results `r_i` that are present, in
/// order.
pub proof fn lemma_run_extends<Input, State: Clone, Result>(
    aggregator: Aggregator<Input, State, Result>,
    initial: State,
    events: Seq<Input>,
    outs: Seq<(State, Option<Result>)>,
    e: Input,
    out: (State, Option<Result>),
)
    requires
        folds(aggregator, initial, events, outs),
        aggregator.aggregates_to(e, state_before(initial, outs, outs.len() as int), out),
    ensures
        folds(aggregator, initial, events.push(e), outs.push(out)),
        state_before(initial, outs.push(out), outs.len() + 1int) == out.0,
        broadcasts(outs.push(out)) == broadcasts(outs) + match out.1 {
            Some(r) => seq![r],
            None => Seq::<Result>::empty(),
        },
{
    let events2 = events.push(e);
    let outs2 = outs.push(out);
    assert forall|i: int| 0 <= i < events2.len() implies #[trigger] aggregator.aggregates_to(
        events2[i],
        state_before(initial, outs2, i),
        outs2[i],
    ) by {
        if i < events.len() {
            assert(events2[i] == events[i]);
            assert(outs2[i] == outs[i]);
            assert(state_before(initial, outs2, i) == state_before(initial, outs, i));
            assert(aggregator.aggregates_to(events[i], state_before(initial, outs, i), outs[i]));
        } else {
            assert(events2[i] == e);
            assert(outs2[i] == out);
            assert(state_before(initial, outs2, i) == state_before(initial, outs, outs.len() as int));
        }
    }
    assert(outs2.drop_last() == outs);
}

/// The running part of a started pipeline: the aggregator and the state
/// that each input event is folded into.
#[verifier::reject_recursive_types(Input)]
#[verifier::reject_recursive_types(State)]
#[verifier::reject_recursive_types(Result)]
pub struct PipelineTask<Input, State, Result> {
    aggregator: Aggregator<Input, State, Result>,
    current_state: Arc<State>,
}

impl<Input, State, Result> PipelineTask<Input, State, Result> {
    pub closed spec fn spec_aggregator(&self) -> Aggregator<Input, State, Result> {
        self.aggregator
    }

    pub closed spec fn spec_state(&self) -> State {
        *self.current_state
    }

    pub fn new(aggregator: Aggregator<Input, State, Result>, initial_state: State) -> (task: Self)
        ensures
            task.spec_aggregator() == aggregator,
            task.spec_state() == initial_state,
    {
        PipelineTask { aggregator, current_state: Arc::new(initial_state) }
    }

    /// The state that the next event is folded into.
    pub fn state(&self) -> (state: &State)
        ensures
            *state == self.spec_state(),
    {
        &self.current_state
    }

    /// Takes the outcome of aggregating one event: its state becomes the
    /// current state, and its result, if any, is to be broadcast.
    pub fn absorb(&mut self, out: (State, Option<Result>)) -> (action: TaskAction<Result>)
        ensures
            final(self).spec_aggregator() == old(self).spec_aggregator(),
            final(self).spec_state() == out.0,
            action == broadcast_of(out.1),
    {
        let (new_state, result) = out;
        self.current_state = Arc::new(new_state);
        match result {
            Some(r) => TaskAction::Broadcast(r),
            None => TaskAction::Continue,
        }
    }

    /// Handles one event.
    ///
    /// An input event is aggregated on the current state; the state it
    /// gives becomes the current state and its result, if any, is to be
    /// broadcast. A closed channel stops the worker; so does a quiet
    /// interval in which shutdown was requested.
    pub fn on_event(&mut self, event: TaskEvent<Input>) -> (action: TaskAction<Result>)
        where State: Clone
        requires
            event matches TaskEvent::Received(input_event) ==> old(self).spec_aggregator().routed_logic_accepts(
                input_event,
                old(self).spec_state(),
            ),
        ensures
            final(self).spec_aggregator() == old(self).spec_aggregator(),
            match event {
                TaskEvent::Received(input_event) => exists|out: (State, Option<Result>)|
                    {
                        &&& #[trigger] old(self).spec_aggregator().aggregates_to(
                            input_event,
                            old(self).spec_state(),
                            out,
                        )
                        &&& final(self).spec_state() == out.0
                        &&& action == broadcast_of(out.1)
                    },
                TaskEvent::Idle { shutdown_requested } => {
                    &&& final(self).spec_state() == old(self).spec_state()
                    &&& action == if shutdown_requested {
                        TaskAction::<Result>::ShutDown
                    } else {
                        TaskAction::<Result>::Continue
                    }
                },
                TaskEvent::Disconnected => {
                    &&& final(self).spec_state() == old(self).spec_state()
                    &&& action == TaskAction::<Result>::ChannelClosed
                },
            },
    {
        match event {
            TaskEvent::Received(input_event) => {
                let out = self.aggregator.aggregate_event(input_event, &self.current_state);
                self.absorb(out)
            },
            TaskEvent::Idle { shutdown_requested } => {
                if shutdown_requested {
                    TaskAction::ShutDown
                } else {
                    TaskAction::Continue
                }
            },
            TaskEvent::Disconnected => TaskAction::ChannelClosed,
        }
    }
}

/// A pipeline's configuration and lifecycle: its producers with their
/// logic, its consumers, and whether it has been started.
///
/// A pipeline is built by adding producers and subscribing consumers, and is
/// started once; starting hands out the task that aggregates its events.
#[verifier::reject_recursive_types(Input)]
#[verifier::reject_recursive_types(State)]
#[verifier::reject_recursive_types(Result)]
pub struct Pipeline<Input, State, Result> {
    aggregator: Aggregator<Input, State, Result>,
    consumers: Vec<Consumer<Result>>,
    started: bool,
}

impl<Input, State, Result> Pipeline<Input, State, Result> {
    /// The producers with their logic, in the order they were added.
    pub closed spec fn entries(&self) -> Seq<(ArcedProducer<Input>, AggregationLogic<Input, State, Result>)> {
        self.aggregator@
    }

    /// The consumers, in the order they subscribed.
    pub closed spec fn spec_consumers(&self) -> Seq<Consumer<Result>> {
        self.consumers@
    }

    /// Whether the pipeline has been started.
    pub closed spec fn spec_started(&self) -> bool {
        self.started
    }

    /// Why the pipeline cannot be cloned, if it cannot: having been started
    /// comes first, then having consumers.
    pub open spec fn spec_clone_refusal(&self) -> Option<CloneRefusal> {
        if self.spec_started() {
            Some(CloneRefusal::Running)
        } else if self.spec_consumers().len() > 0 {
            Some(CloneRefusal::HasConsumers)
        } else {
            None
        }
    }

    /// Why the pipeline cannot be cloned, if it cannot.
    pub fn clone_refusal(&self) -> (refusal: Option<CloneRefusal>)
        ensures
            refusal == self.spec_clone_refusal(),
            self.spec_started() ==> refusal == Some(CloneRefusal::Running),
            !self.spec_started() && self.spec_consumers().len() > 0 ==> refusal == Some(
                CloneRefusal::HasConsumers,
            ),
            refusal is None <==> (!self.spec_started() && self.spec_consumers().len() == 0),
    {
        if self.started {
            Some(CloneRefusal::Running)
        } else if self.consumers.len() > 0 {
            Some(CloneRefusal::HasConsumers)
        } else {
            None
        }
    }

    /// Whether the pipeline has been started.
    pub fn is_started(&self) -> (started: bool)
        ensures
            started == self.spec_started(),
    {
        self.started
    }

    /// Whether any consumer has subscribed.
    pub fn has_consumers(&self) -> (some: bool)
        ensures
            some == (self.spec_consumers().len() > 0),
    {
        self.consumers.len() > 0
    }

    /// The consumers, in the order they subscribed.
    pub fn consumers(&self) -> (consumers: &Vec<Consumer<Result>>)
        ensures
            consumers@ == self.spec_consumers(),
    {
        &self.consumers
    }

    /// The producers, in the order they were added.
    pub fn get_producers(&self) -> (producers: Vec<ArcedProducer<Input>>)
        ensures
            producers@ == self.entries().map_values(
                |e: (ArcedProducer<Input>, AggregationLogic<Input, State, Result>)| e.0,
            ),
    {
        self.aggregator.get_producers()
    }

    /// Adds a producer with the logic for its events, after those already
    /// there.
    pub fn add_producer(
        &mut self,
        producer: ArcedProducer<Input>,
        logic: AggregationLogic<Input, State, Result>,
    ) -> (this: &mut Self)
        ensures
            this.entries() == old(self).entries().push((producer, logic)),
            this.spec_consumers() == old(self).spec_consumers(),
            this.spec_started() == old(self).spec_started(),
            *final(self) == *final(this),
    {
        self.aggregator.add_producer(producer, logic);
        self
    }

    /// Subscribes a consumer to the aggregated results, after those already
    /// there.
    pub fn subscribe(&mut self, consumer: Consumer<Result>) -> (this: &mut Self)
        ensures
            this.entries() == old(self).entries(),
            this.spec_consumers() == old(self).spec_consumers().push(consumer),
            this.spec_started() == old(self).spec_started(),
            *final(self) == *final(this),
    {
        self.consumers.push(consumer);
        self
    }

    /// Starts the pipeline: it is marked started, and the task that folds
    /// its input events into `initial_state` is handed out. A pipeline is
    /// started at most once.
    pub fn start(&mut self, initial_state: State) -> (task: PipelineTask<Input, State, Result>)
        requires
            !old(self).spec_started(),
        ensures
            final(self).spec_started(),
            final(self).entries() == old(self).entries(),
            final(self).spec_consumers() == old(self).spec_consumers(),
            task.spec_aggregator()@ == old(self).entries(),
            task.spec_state() == initial_state,
    {
        self.started = true;
        PipelineTask::new(self.aggregator.clone(), initial_state)
    }

    /// A fresh pipeline with the same producers and logic, in the same
    /// order, no consumers, not started. Only a pipeline that has not been
    /// started and has no consumers is cloned.
    pub fn clone(&self) -> (copy: Self)
        requires
            self.spec_clone_refusal() is None,
        ensures
            copy.entries() == self.entries(),
            copy.spec_consumers().len() == 0,
            !copy.spec_started(),
    {
        let mut pipeline: Self = Self::default();
        let producers = self.aggregator.get_producers_and_logic();
        for entry in iter: producers
            invariant
                iter.seq() == self.entries(),
                pipeline.entries() == self.entries().take(iter.index()),
                pipeline.spec_consumers().len() == 0,
                !pipeline.spec_started(),
        {
            let (producer, logic) = entry;
            pipeline.add_producer(producer, logic);
            assert(self.entries().take(iter.index() + 1) == self.entries().take(iter.index()).push(self.entries()[iter.index()]));
        }
        assert(self.entries().take(self.entries().len() as int) == self.entries());
        pipeline
    }
}

/// Cloning is refused exactly for a pipeline that is running or has
/// consumers: a started pipeline is refused as running, whatever its
/// consumers; an unstarted one with at least one consumer is refused for its
/// consumers; and only an unstarted pipeline with no consumer may be cloned.
pub proof fn lemma_clone_refused_for_running_or_consumers<Input, State, Result>(
    pipeline: Pipeline<Input, State, Result>,
)
    ensures
        pipeline.spec_started() ==> pipeline.spec_clone_refusal() == Some(CloneRefusal::Running),
        !pipeline.spec_started() && pipeline.spec_consumers().len() > 0 ==> pipeline.spec_clone_refusal()
            == Some(CloneRefusal::HasConsumers),
        pipeline.spec_clone_refusal() is None <==> (!pipeline.spec_started()
            && pipeline.spec_consumers().len() == 0),
{
}

impl<Input, State, Result> Default for Pipeline<Input, State, Result> {
    fn default() -> (pipeline: Self)
        ensures
            pipeline.entries().len() == 0,
            pipeline.spec_consumers().len() == 0,
            !pipeline.spec_started(),
    {
        Pipeline { aggregator: Aggregator::default(), consumers: Vec::new(), started: false }
    }
}

} // verus!
