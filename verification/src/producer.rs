use std::sync::atomic::AtomicBool;
use std::sync::Arc;
use vstd::prelude::*;

verus! {

/// The sending half of a channel: `crossbeam::channel::Sender`, carried
/// through opaque.
#[verifier::external_type_specification]
#[verifier::external_body]
#[verifier::reject_recursive_types(T)]
pub struct ExSender<T>(crossbeam::channel::Sender<T>);

/// A source of input events.
///
/// `matches` tells whether an event is one that this producer emits, which
/// is how the aggregator picks the logic for it; `start` begins emitting
/// events into `sender` until `shutdown` is raised.
pub trait Producer<Input>: Send + Sync {
    /// `claimed` is an answer that `matches` may give about `input_event`.
    /// It is this trait's promise about `matches`, which the aggregator's
    /// routing contracts rest on; an implementation outside verified code
    /// writes it as an ordinary function, such as
    /// `self.matches(&input_event) == claimed`.
    spec fn answers(&self, input_event: Input, claimed: bool) -> bool;

    fn matches(&self, input_event: &Input) -> (claimed: bool)
        ensures
            self.answers(*input_event, claimed),
    ;

    fn start(&self, sender: crossbeam::channel::Sender<Input>, shutdown: Arc<AtomicBool>);
}

} // verus!
