use std::sync::Arc;
use vstd::prelude::*;

use crate::types::{share, AggregationFn, AggregationLogic, ArcedProducer};

verus! {

/// The producers of a pipeline, each paired with the logic that folds its
/// events into the running state, in the order they were added.
#[verifier::reject_recursive_types(Input)]
#[verifier::reject_recursive_types(State)]
#[verifier::reject_recursive_types(Result)]
pub struct Aggregator<Input, State, Result> {
    producers_and_logic: Vec<(ArcedProducer<Input>, AggregationLogic<Input, State, Result>)>,
}

impl<Input, State, Result> View for Aggregator<Input, State, Result> {
    type V = Seq<(ArcedProducer<Input>, AggregationLogic<Input, State, Result>)>;

    closed spec fn view(&self) -> Self::V {
        self.producers_and_logic@
    }
}

impl<Input, State, Result> Aggregator<Input, State, Result> {
    /// The producer of entry `i` may answer `claimed` about `input_event`.
    pub open spec fn answered(self, i: int, input_event: Input, claimed: bool) -> bool {
        self@[i].0.0.answers(input_event, claimed)
    }

    /// Entry `i` may be the first whose producer claims `input_event`: its
    /// producer answers yes, and the producer of every earlier entry no.
    pub open spec fn may_route_to(self, input_event: Input, i: int) -> bool {
        &&& 0 <= i < self@.len()
        &&& self.answered(i, input_event, true)
        &&& forall|j: int| 0 <= j < i ==> #[trigger] self.answered(j, input_event, false)
    }

    /// `route` is what asking the producers in order gives: the first entry
    /// whose producer claims `input_event`, or none when every producer
    /// answers no.
    pub open spec fn claim_route(self, input_event: Input, route: Option<usize>) -> bool {
        match route {
            Some(i) => self.may_route_to(input_event, i as int),
            None => forall|j: int| 0 <= j < self@.len() ==> #[trigger] self.answered(j, input_event, false),
        }
    }

    /// The logic of every entry that `input_event` may be routed to accepts
    /// it on `state`.
    pub open spec fn routed_logic_accepts(self, input_event: Input, state: State) -> bool {
        forall|i: int| #[trigger] self.may_route_to(input_event, i) ==> self@[i].1.0.accepts(input_event, state)
    }

    /// `route` names no entry, or one that exists.
    pub open spec fn valid_route(self, route: Option<usize>) -> bool {
        route matches Some(i) ==> i < self@.len()
    }

    /// `out` is what aggregating `input_event` on `state` along `route` gives:
    /// the routed entry's logic applied to them, or, with no route, the
    /// state unchanged (a clone of it) and no result.
    pub open spec fn routed_outcome(
        self,
        route: Option<usize>,
        input_event: Input,
        state: State,
        out: (State, Option<Result>),
    ) -> bool
        where State: Clone
    {
        match route {
            Some(i) => self@[i as int].1.0.produces(input_event, state, out),
            None => out.1 is None && cloned::<State>(state, out.0),
        }
    }

    /// `out` is what aggregating `input_event` on `state` gives: the outcome
    /// along the route that asking the producers in order yields.
    pub open spec fn aggregates_to(self, input_event: Input, state: State, out: (State, Option<Result>)) -> bool
        where State: Clone
    {
        exists|route: Option<usize>|
            self.claim_route(input_event, route) && #[trigger] self.routed_outcome(route, input_event, state, out)
    }

    /// Appends a producer and its logic after those already there.
    pub fn add_producer(
        &mut self,
        producer: ArcedProducer<Input>,
        logic: AggregationLogic<Input, State, Result>,
    ) -> (this: &mut Self)
        ensures
            this@ == old(self)@.push((producer, logic)),
            *final(self) == *final(this),
    {
        self.producers_and_logic.push((producer, logic));
        self
    }

    /// The producers, in order.
    pub fn get_producers(&self) -> (producers: Vec<ArcedProducer<Input>>)
        ensures
            producers@ == self@.map_values(|e: (ArcedProducer<Input>, AggregationLogic<Input, State, Result>)| e.0),
    {
        let mut producers: Vec<ArcedProducer<Input>> = Vec::new();
        let n: usize = self.producers_and_logic.len();
        for i in 0..n
            invariant
                n == self@.len(),
                producers@ == self@.take(i as int).map_values(|e: (ArcedProducer<Input>, AggregationLogic<Input, State, Result>)| e.0),
        {
            producers.push(share(&self.producers_and_logic[i].0));
            assert(self@.take(i + 1) == self@.take(i as int).push(self@[i as int]));
        }
        assert(self@.take(n as int) == self@);
        producers
    }

    /// The producers with their logic, in order.
    pub fn get_producers_and_logic(&self) -> (entries: Vec<(ArcedProducer<Input>, AggregationLogic<Input, State, Result>)>)
        ensures
            entries@ == self@,
    {
        let mut entries: Vec<(ArcedProducer<Input>, AggregationLogic<Input, State, Result>)> = Vec::new();
        let n: usize = self.producers_and_logic.len();
        for i in 0..n
            invariant
                n == self@.len(),
                entries@ == self@.take(i as int),
        {
            let entry = &self.producers_and_logic[i];
            entries.push((share(&entry.0), share(&entry.1)));
            assert(self@.take(i + 1) == self@.take(i as int).push(self@[i as int]));
        }
        assert(self@.take(n as int) == self@);
        entries
    }
}

impl<Input, State, Result> Aggregator<Input, State, Result> {
    /// Asks the producers in order whether `input_event` is theirs, up to
    /// the first that says so, and names that one; none when every producer
    /// says no.
    pub fn find_logic(&self, input_event: &Input) -> (route: Option<usize>)
        ensures
            self.valid_route(route),
            self.claim_route(*input_event, route),
    {
        let n: usize = self.producers_and_logic.len();
        for i in 0..n
            invariant
                n == self@.len(),
                forall|j: int| 0 <= j < i ==> #[trigger] self.answered(j, *input_event, false),
        {
            if self.producers_and_logic[i].0.0.matches(input_event) {
                return Some(i);
            }
        }
        None
    }

    /// Aggregates `input_event` on `current_state` along `route`: with the
    /// routed entry's logic, or, with no route, by keeping the state and
    /// giving no result.
    pub fn aggregate_routed(
        &self,
        route: Option<usize>,
        input_event: Input,
        current_state: &Arc<State>,
    ) -> (out: (State, Option<Result>))
        where State: Clone
        requires
            self.valid_route(route),
            route matches Some(i) ==> self@[i as int].1.0.accepts(input_event, **current_state),
        ensures
            self.routed_outcome(route, input_event, **current_state, out),
    {
        match route {
            Some(i) => self.producers_and_logic[i].1.0.apply(input_event, &**current_state),
            None => ((**current_state).clone(), None),
        }
    }

    /// Aggregates `input_event` on `current_state` with the logic of the
    /// first producer that claims the event; when none does, the state is
    /// kept and there is no result. Only the logic that the event is routed
    /// to is called.
    pub fn aggregate_event(&self, input_event: Input, current_state: &Arc<State>) -> (out: (
        State,
        Option<Result>,
    ))
        where State: Clone
        requires
            self.routed_logic_accepts(input_event, **current_state),
        ensures
            self.aggregates_to(input_event, **current_state, out),
    {
        let route = self.find_logic(&input_event);
        let out = self.aggregate_routed(route, input_event, current_state);
        out
    }
}

impl<Input, State, Result> Default for Aggregator<Input, State, Result> {
    fn default() -> (aggregator: Self)
        ensures
            aggregator@ == Seq::<(ArcedProducer<Input>, AggregationLogic<Input, State, Result>)>::empty(),
    {
        Aggregator { producers_and_logic: Vec::new() }
    }
}

impl<Input, State, Result> Clone for Aggregator<Input, State, Result> {
    fn clone(&self) -> (copy: Self)
        ensures
            copy@ == self@,
    {
        Aggregator { producers_and_logic: self.get_producers_and_logic() }
    }
}

/// Aggregators with the same entries in the same order aggregate alike: on
/// every route, event and state they allow the same outcomes. A clone, or
/// the aggregator of a pipeline's task, therefore routes as the original.
pub proof fn lemma_same_entries_aggregate_alike<Input, State: Clone, Result>(
    a: Aggregator<Input, State, Result>,
    b: Aggregator<Input, State, Result>,
    route: Option<usize>,
    input_event: Input,
    state: State,
    out: (State, Option<Result>),
)
    requires
        a@ == b@,
    ensures
        a.valid_route(route) == b.valid_route(route),
        a.claim_route(input_event, route) == b.claim_route(input_event, route),
        a.routed_logic_accepts(input_event, state) == b.routed_logic_accepts(input_event, state),
        a.routed_outcome(route, input_event, state, out) == b.routed_outcome(route, input_event, state, out),
{
    assert forall|i: int| #[trigger] a.may_route_to(input_event, i) implies b.may_route_to(input_event, i) by {
        assert forall|j: int| 0 <= j < i implies #[trigger] b.answered(j, input_event, false) by {
            assert(a.answered(j, input_event, false));
        }
    }
    assert forall|i: int| #[trigger] b.may_route_to(input_event, i) implies a.may_route_to(input_event, i) by {
        assert forall|j: int| 0 <= j < i implies #[trigger] a.answered(j, input_event, false) by {
            assert(b.answered(j, input_event, false));
        }
    }
    if a.claim_route(input_event, route) && route is None {
        assert forall|j: int| 0 <= j < b@.len() implies #[trigger] b.answered(j, input_event, false) by {
            assert(a.answered(j, input_event, false));
        }
    }
    if b.claim_route(input_event, route) && route is None {
        assert forall|j: int| 0 <= j < a@.len() implies #[trigger] a.answered(j, input_event, false) by {
            assert(b.answered(j, input_event, false));
        }
    }
}

/// The entries of an aggregator that starts as `entries` and then has
/// `added` appended by `add_producer`, one call per pair, in order.
pub open spec fn after_adds<E>(entries: Seq<E>, added: Seq<E>) -> Seq<E>
    decreases added.len(),
{
    if added.len() == 0 {
        entries
    } else {
        after_adds(entries, added.drop_last()).push(added.last())
    }
}

/// Adding producers one after another keeps them all, in the order they were
/// added, after those already there: in particular an aggregator from
/// `default` followed by `add_producer` on `p_1, l_1` to `p_n, l_n` holds
/// exactly those pairs, in that order.
pub proof fn lemma_adds_keep_order<E>(entries: Seq<E>, added: Seq<E>)
    ensures
        after_adds(entries, added) == entries + added,
    decreases added.len(),
{
    if added.len() > 0 {
        lemma_adds_keep_order(entries, added.drop_last());
        assert(entries + added == (entries + added.drop_last()).push(added.last()));
    }
}

} // verus!
