use vstd::prelude::*;
use crate::config::ExperimentDocument;
use crate::registry::Registry;
use rand::Rng;
use tokio::sync::mpsc::Receiver;

verus! {

/// Smallest batch size a cycle may draw.
pub const MIN_BATCH_SIZE: usize = 100;

/// Exclusive upper bound of the batch sizes a cycle may draw.
pub const MAX_BATCH_SIZE: usize = 200;

/// Number of generation tasks launched together in each cycle.
pub const GENERATION_TASKS: usize = 60;

/// Shortest duration of one cycle, in milliseconds.
pub const CYCLE_FLOOR_MS: u64 = 60000;

/// Delay before a requestor starts consuming batches, in milliseconds.
pub const REQUESTOR_START_DELAY_MS: u64 = 5000;

/// Number of pending batches the broadcast channel holds.
pub const BATCH_CHANNEL_CAPACITY: usize = 1000;

/// Relies on rand's `Rng::gen_range` over `thread_rng`: a value drawn
/// uniformly from `[low, high)`; the range must not be empty.
#[verifier::external_body]
fn random_in_range(low: usize, high: usize) -> (r: usize)
    requires
        low < high,
    ensures
        low <= r < high,
{
    rand::thread_rng().gen_range(low..high)
}

/// Draws the batch size for one cycle, uniformly from `[100, 200)`.
pub fn choose_batch_size() -> (r: usize)
    ensures
        MIN_BATCH_SIZE <= r < MAX_BATCH_SIZE,
{
    random_in_range(MIN_BATCH_SIZE, MAX_BATCH_SIZE)
}

/// What one steady-state iteration must do: launch `generation_tasks`
/// generation tasks, each producing a batch of `batch_size` queries, next to
/// a timer of `floor_ms`, and wait for all of them.
#[derive(Debug, Clone, Copy, PartialEq, Eq, Structural)]
pub struct CyclePlan {
    pub batch_size: usize,
    pub generation_tasks: usize,
    pub floor_ms: u64,
}

/// The load-generation cycle's state: the registry of received documents,
/// and whether the first document has arrived.
#[derive(Debug)]
pub struct LoadCycle {
    registry: Registry,
    bootstrapped: bool,
}

impl LoadCycle {
    /// The documents held so far.
    pub closed spec fn spec_documents(&self) -> Seq<ExperimentDocument> {
        self.registry@
    }

    /// Whether the first document has been taken in.
    pub closed spec fn spec_bootstrapped(&self) -> bool {
        self.bootstrapped
    }

    pub fn new() -> (r: LoadCycle)
        ensures
            r.spec_documents().len() == 0,
            !r.spec_bootstrapped(),
    {
        LoadCycle { registry: Registry::new(), bootstrapped: false }
    }

    pub fn is_bootstrapped(&self) -> (r: bool)
        ensures
            r == self.spec_bootstrapped(),
    {
        self.bootstrapped
    }

    /// The registry, for generation tasks to read.
    pub fn registry(&self) -> (r: &Registry)
        ensures
            r@ == self.spec_documents(),
    {
        &self.registry
    }

    /// Takes in the first document, which the caller waited for; from then
    /// on the cycle is in its steady state.
    pub fn bootstrap(&mut self, first: ExperimentDocument)
        requires
            !old(self).spec_bootstrapped(),
        ensures
            final(self).spec_bootstrapped(),
            final(self).spec_documents() == old(self).spec_documents().push(first),
    {
        self.registry.insert(first);
        self.bootstrapped = true;
    }

    /// Starts one steady-state iteration: drains the documents that have
    /// arrived without waiting, appending them after those already held,
    /// then draws the batch size. Returns the plan
    /// and the number of documents taken in.
    pub fn begin_iteration(&mut self, rx: &mut Receiver<ExperimentDocument>) -> (r: (CyclePlan, usize))
        requires
            old(self).spec_bootstrapped(),
        ensures
            final(self).spec_bootstrapped(),
            final(self).spec_documents().len() == old(self).spec_documents().len() + r.1,
            final(self).spec_documents() == old(self).spec_documents() + final(self).spec_documents().subrange(
                old(self).spec_documents().len() as int,
                final(self).spec_documents().len() as int,
            ),
            r.1 == 0 ==> final(self).spec_documents() == old(self).spec_documents(),
            MIN_BATCH_SIZE <= r.0.batch_size < MAX_BATCH_SIZE,
            r.0.generation_tasks == GENERATION_TASKS,
            r.0.floor_ms == CYCLE_FLOOR_MS,
    {
        let received = self.registry.receive_experiments(rx);
        let batch_size = choose_batch_size();
        (CyclePlan { batch_size, generation_tasks: GENERATION_TASKS, floor_ms: CYCLE_FLOOR_MS }, received)
    }
}

} // verus!
