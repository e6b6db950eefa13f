use std::sync::Arc;
use vstd::prelude::*;

use crate::producer::Producer;

verus! {

/// The logic that folds one input event into the running state.
///
/// Closures `Fn(Input, &State) -> (State, Option<Result>)` implement it; the
/// specification functions then say exactly what the closure's own
/// `requires` and `ensures` say.
pub trait AggregationFn<Input, State, Result>: Send + Sync {
    /// The inputs on which the logic may be called.
    spec fn accepts(&self, input_event: Input, previous_state: State) -> bool;

    /// What a call may return.
    spec fn produces(&self, input_event: Input, previous_state: State, out: (State, Option<Result>)) -> bool;

    fn apply(&self, input_event: Input, previous_state: &State) -> (out: (State, Option<Result>))
        requires
            self.accepts(input_event, *previous_state),
        ensures
            self.produces(input_event, *previous_state, out),
    ;
}

impl<Input, State, Result, F> AggregationFn<Input, State, Result> for F where
    F: Fn(Input, &State) -> (State, Option<Result>) + Send + Sync,
 {
    open spec fn accepts(&self, input_event: Input, previous_state: State) -> bool {
        call_requires(*self, (input_event, &previous_state))
    }

    open spec fn produces(
        &self,
        input_event: Input,
        previous_state: State,
        out: (State, Option<Result>),
    ) -> bool {
        call_ensures(*self, (input_event, &previous_state), out)
    }

    fn apply(&self, input_event: Input, previous_state: &State) -> (out: (State, Option<Result>)) {
        self(input_event, previous_state)
    }
}

/// The logic that a consumer runs on each aggregated result.
///
/// Closures `Fn(Result)` implement it.
pub trait ConsumerFn<Result>: Send + Sync {
    /// The results on which the logic may be called.
    spec fn accepts(&self, result_event: Result) -> bool;

    /// What holds once the logic has run on `result_event`.
    spec fn processed(&self, result_event: Result) -> bool;

    fn process(&self, result_event: Result)
        requires
            self.accepts(result_event),
        ensures
            self.processed(result_event),
    ;
}

impl<Result, F> ConsumerFn<Result> for F where F: Fn(Result) + Send + Sync {
    open spec fn accepts(&self, result_event: Result) -> bool {
        call_requires(*self, (result_event,))
    }

    open spec fn processed(&self, result_event: Result) -> bool {
        call_ensures(*self, (result_event,), ())
    }

    fn process(&self, result_event: Result) {
        self(result_event)
    }
}

/// A value shared between the pipeline's threads.
pub struct Shared<T: ?Sized>(pub Arc<T>);

/// Another handle on the same shared value, by `std::sync::Arc::clone`.
///
/// `Arc::clone` makes a new pointer to the same allocation; the contract
/// claims only that the copy holds the same value as the original.
#[verifier::external_body]
pub fn share<T: ?Sized>(shared: &Shared<T>) -> (copy: Shared<T>)
    ensures
        copy == *shared,
{
    Shared(Arc::clone(&shared.0))
}

/// Shared aggregation logic, as the pipeline stores it.
pub type AggregationLogic<Input, State, Result> = Shared<dyn AggregationFn<Input, State, Result>>;

/// Shared consumer logic, as a consumer stores it.
pub type ConsumerLogic<Result> = Shared<dyn ConsumerFn<Result>>;

/// A shared producer, as the pipeline stores it.
pub type ArcedProducer<Input> = Shared<dyn Producer<Input>>;

} // verus!
