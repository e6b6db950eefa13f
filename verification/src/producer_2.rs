use vstd::prelude::*;

verus! {

/// What a producer's worker does next.
#[derive(PartialEq, Eq, Structural, Debug, Clone, Copy)]
pub enum EmitterStep {
    /// Send the event with this id.
    Emit(u32),
    /// Every id of the range has been sent.
    Finished,
    /// Shutdown was requested before the next id was sent.
    ShutDown,
}

/// The id that follows `previous` in `start_id..=end_id`: the first id when
/// nothing has been sent yet, none past the end.
pub open spec fn next_id(start_id: u32, end_id: u32, previous: Option<u32>) -> Option<u32> {
    match previous {
        None => if start_id <= end_id {
            Some(start_id)
        } else {
            None
        },
        Some(p) => if p < end_id {
            Some((p + 1) as u32)
        } else {
            None
        },
    }
}

/// Every id of `start_id..=end_id` after `previous` has been sent: the range
/// is empty, or `previous` is its end (or past it).
pub open spec fn range_exhausted(start_id: u32, end_id: u32, previous: Option<u32>) -> bool {
    match previous {
        None => start_id > end_id,
        Some(p) => p >= end_id,
    }
}

/// The step that follows `previous` when the shutdown flag reads
/// `shutdown_requested`.
pub open spec fn emission_decision(
    start_id: u32,
    end_id: u32,
    previous: Option<u32>,
    shutdown_requested: bool,
) -> EmitterStep {
    match next_id(start_id, end_id, previous) {
        None => EmitterStep::Finished,
        Some(id) => if shutdown_requested {
            EmitterStep::ShutDown
        } else {
            EmitterStep::Emit(id)
        },
    }
}

/// A producer's step honours the shutdown flag and its range: a step taken
/// with the flag raised is never `Emit` (it is `ShutDown` whenever an id
/// remains to be sent); an `Emit` sends the id right after `previous` (the
/// range's first id at the start), never past the range's end; and the step
/// is `Finished` exactly when no id remains.
pub proof fn lemma_step_honours_shutdown_and_range(
    start_id: u32,
    end_id: u32,
    previous: Option<u32>,
    shutdown_requested: bool,
)
    ensures
        shutdown_requested && !range_exhausted(start_id, end_id, previous) ==> emission_decision(
            start_id,
            end_id,
            previous,
            shutdown_requested,
        ) == EmitterStep::ShutDown,
        shutdown_requested ==> !(emission_decision(start_id, end_id, previous, shutdown_requested) is Emit),
        emission_decision(start_id, end_id, previous, shutdown_requested) matches EmitterStep::Emit(id) ==> {
            &&& id <= end_id
            &&& previous is None ==> id == start_id
            &&& previous matches Some(p) ==> id == p + 1
        },
        emission_decision(start_id, end_id, previous, shutdown_requested) == EmitterStep::Finished
            <==> range_exhausted(start_id, end_id, previous),
{
}

/// The id sent after `k` others, following the steps from the start.
pub open spec fn kth_id(start_id: u32, end_id: u32, k: nat) -> Option<u32>
    decreases k,
{
    if k == 0 {
        next_id(start_id, end_id, None)
    } else {
        match kth_id(start_id, end_id, (k - 1) as nat) {
            None => None,
            Some(p) => next_id(start_id, end_id, Some(p)),
        }
    }
}

/// The next step of a producer that sends the ids `start_id..=end_id` in
/// order, checking the shutdown flag before each one.
pub fn next_emission(start_id: u32, end_id: u32, previous: Option<u32>, shutdown_requested: bool) -> (step:
    EmitterStep)
    ensures
        step == emission_decision(start_id, end_id, previous, shutdown_requested),
        step matches EmitterStep::Emit(id) ==> {
            &&& !shutdown_requested
            &&& id <= end_id
            &&& previous is None ==> id == start_id
            &&& previous matches Some(p) ==> id == p + 1
        },
        step == EmitterStep::Finished <==> range_exhausted(start_id, end_id, previous),
        step == EmitterStep::ShutDown <==> (shutdown_requested && !range_exhausted(start_id, end_id, previous)),
{
    let next = match previous {
        None => if start_id <= end_id {
            Some(start_id)
        } else {
            None
        },
        Some(p) => if p < end_id {
            Some(p + 1)
        } else {
            None
        },
    };
    match next {
        None => EmitterStep::Finished,
        Some(id) => if shutdown_requested {
            EmitterStep::ShutDown
        } else {
            EmitterStep::Emit(id)
        },
    }
}

/// Following the steps from the start, a producer sends exactly the ids
/// `start_id..=end_id`, in increasing order, each once, and then finishes.
pub proof fn lemma_emits_range_in_order(start_id: u32, end_id: u32, k: nat)
    ensures
        kth_id(start_id, end_id, k) == if start_id + k <= end_id {
            Some((start_id + k) as u32)
        } else {
            None::<u32>
        },
    decreases k,
{
    if k > 0 {
        lemma_emits_range_in_order(start_id, end_id, (k - 1) as nat);
    }
}

/// The id sent before the one at position `k` of `ids`: none at the start.
pub open spec fn previous_of(ids: Seq<u32>, k: int) -> Option<u32> {
    if k <= 0 {
        None
    } else {
        Some(ids[k - 1])
    }
}

/// `ids` are the ids a producer's worker sent when it followed the steps:
/// each was the step's `Emit`, given the id sent before it and the shutdown
/// flag read then (`flags`).
pub open spec fn follows_steps(start_id: u32, end_id: u32, ids: Seq<u32>, flags: Seq<bool>) -> bool {
    &&& flags.len() == ids.len()
    &&& forall|k: int|
        0 <= k < ids.len() ==> #[trigger] emission_decision(start_id, end_id, previous_of(ids, k), flags[k])
            == EmitterStep::Emit(ids[k])
}

/// Whatever the shutdown flag does, the ids a producer's worker sends by
/// following the steps are a prefix of `start_id..=end_id`: the `k`-th is
/// `start_id + k`, the id that `kth_id` gives, and none is past `end_id`.
/// When the flag is never raised, the step after the last of them is
/// `Emit` of the next id until `end_id` has been sent, and `Finished` then.
pub proof fn lemma_sends_prefix_of_range(start_id: u32, end_id: u32, ids: Seq<u32>, flags: Seq<bool>)
    requires
        follows_steps(start_id, end_id, ids, flags),
    ensures
        forall|k: int|
            0 <= k < ids.len() ==> #[trigger] ids[k] == start_id + k && start_id + k <= end_id
                && kth_id(start_id, end_id, k as nat) == Some(ids[k]),
        emission_decision(start_id, end_id, previous_of(ids, ids.len() as int), false) == if start_id
            + ids.len() <= end_id {
            EmitterStep::Emit((start_id + ids.len()) as u32)
        } else {
            EmitterStep::Finished
        },
    decreases ids.len(),
{
    if ids.len() > 0 {
        let shorter = ids.drop_last();
        assert(follows_steps(start_id, end_id, shorter, flags.drop_last())) by {
            assert forall|k: int| 0 <= k < shorter.len() implies #[trigger] emission_decision(
                start_id,
                end_id,
                previous_of(shorter, k),
                flags.drop_last()[k],
            ) == EmitterStep::Emit(shorter[k]) by {
                assert(previous_of(shorter, k) == previous_of(ids, k));
                assert(emission_decision(start_id, end_id, previous_of(ids, k), flags[k]) == EmitterStep::Emit(ids[k]));
            }
        }
        lemma_sends_prefix_of_range(start_id, end_id, shorter, flags.drop_last());
        let last = ids.len() - 1;
        assert(emission_decision(start_id, end_id, previous_of(ids, last), flags[last]) == EmitterStep::Emit(ids[last]));
        assert(previous_of(ids, last) == previous_of(shorter, shorter.len() as int));
        assert(ids[last] == start_id + last && start_id + last <= end_id);
        assert forall|k: int| 0 <= k < ids.len() implies #[trigger] ids[k] == start_id + k && start_id + k <= end_id by {
            if k < last {
                assert(ids[k] == shorter[k]);
            }
        }
    }
    assert forall|k: int| 0 <= k < ids.len() implies kth_id(start_id, end_id, k as nat) == Some(ids[k]) by {
        lemma_emits_range_in_order(start_id, end_id, k as nat);
        assert(ids[k] == start_id + k);
    }
}

/// A producer of the ids `start_id..=end_id`.
pub struct Producer2 {
    name: String,
    start_id: u32,
    end_id: u32,
}

impl Producer2 {
    pub closed spec fn spec_name(&self) -> Seq<char> {
        self.name@
    }

    pub closed spec fn spec_start_id(&self) -> u32 {
        self.start_id
    }

    pub closed spec fn spec_end_id(&self) -> u32 {
        self.end_id
    }

    pub fn new(name: &str, start_id: u32, end_id: u32) -> (producer: Self)
        ensures
            producer.spec_name() == name@,
            producer.spec_start_id() == start_id,
            producer.spec_end_id() == end_id,
    {
        Producer2 { name: name.to_owned(), start_id, end_id }
    }

    pub fn name(&self) -> (name: &str)
        ensures
            name@ == self.spec_name(),
    {
        self.name.as_str()
    }

    /// The next step of this producer's worker, after it sent `previous`.
    pub fn next_step(&self, previous: Option<u32>, shutdown_requested: bool) -> (step: EmitterStep)
        ensures
            step == emission_decision(self.spec_start_id(), self.spec_end_id(), previous, shutdown_requested),
    {
        next_emission(self.start_id, self.end_id, previous, shutdown_requested)
    }
}

impl Clone for Producer2 {
    fn clone(&self) -> (copy: Self)
        ensures
            copy.spec_name() == self.spec_name(),
            copy.spec_start_id() == self.spec_start_id(),
            copy.spec_end_id() == self.spec_end_id(),
    {
        Producer2 { name: self.name.clone(), start_id: self.start_id, end_id: self.end_id }
    }
}

} // verus!
