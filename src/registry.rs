use vstd::prelude::*;
use crate::config::ExperimentDocument;
use tokio::sync::mpsc::Receiver;

verus! {

#[verifier::external_type_specification]
#[verifier::external_body]
#[verifier::reject_recursive_types(T)]
pub struct ExReceiver<T>(Receiver<T>);

/// Relies on tokio's `mpsc::Receiver::len`: the number of messages that
/// sit in the channel at the moment of the call.
#[verifier::external_body]
fn pending_documents(rx: &Receiver<ExperimentDocument>) -> (r: usize) {
    rx.len()
}

/// Relies on tokio's `mpsc::Receiver::try_recv`: takes the next message
/// without waiting; `None` when the channel is empty or closed.
#[verifier::external_body]
fn try_receive_document(rx: &mut Receiver<ExperimentDocument>) -> (r: Option<ExperimentDocument>) {
    rx.try_recv().ok()
}

/// The ordered collection of experiment documents received so far. It only
/// grows: insertion order is kept and nothing is ever removed.
#[derive(Debug)]
pub struct Registry {
    docs: Vec<ExperimentDocument>,
}

impl View for Registry {
    type V = Seq<ExperimentDocument>;

    closed spec fn view(&self) -> Seq<ExperimentDocument> {
        self.docs@
    }
}

impl Registry {
    pub fn new() -> (r: Registry)
        ensures
            r@.len() == 0,
    {
        Registry { docs: Vec::new() }
    }

    pub fn len(&self) -> (r: usize)
        ensures
            r == self@.len(),
    {
        self.docs.len()
    }

    /// The documents, in the order they arrived.
    pub fn documents(&self) -> (r: &Vec<ExperimentDocument>)
        ensures
            r@ == self@,
    {
        &self.docs
    }

    /// Appends one document at the end.
    pub fn insert(&mut self, doc: ExperimentDocument)
        ensures
            final(self)@ == old(self)@.push(doc),
    {
        self.docs.push(doc);
    }

    /// Takes in what one non-blocking receive yielded: a document is
    /// appended and intake goes on; nothing received ends the drain and
    /// leaves the registry as it was.
    pub fn take_in(&mut self, received: Option<ExperimentDocument>) -> (more: bool)
        ensures
            received is Some ==> final(self)@ == old(self)@.push(received->Some_0) && more,
            received is None ==> final(self)@ == old(self)@ && !more,
    {
        match received {
            Some(doc) => {
                self.insert(doc);
                true
            },
            None => false,
        }
    }

    /// Drains, without waiting, the documents that sit in the channel when
    /// the call begins, and appends each one, through `take_in`, in the
    /// order received; the drain ends early once the channel reports empty
    /// or closed. Returns how many were appended. The registry afterwards
    /// is the old one followed by exactly those documents; when none was
    /// received it is left as it was.
    pub fn receive_experiments(&mut self, rx: &mut Receiver<ExperimentDocument>) -> (n: usize)
        ensures
            final(self)@.len() == old(self)@.len() + n,
            final(self)@ == old(self)@ + final(self)@.subrange(old(self)@.len() as int, final(self)@.len() as int),
            n == 0 ==> final(self)@ == old(self)@,
    {
        let pending = pending_documents(rx);
        let mut n: usize = 0;
        let ghost mut taken: Seq<ExperimentDocument> = Seq::empty();
        while n < pending
            invariant
                n <= pending,
                taken.len() == n,
                self@ == old(self)@ + taken,
            decreases pending - n,
        {
            let received = try_receive_document(rx);
            let ghost doc = received;
            if !self.take_in(received) {
                break;
            }
            proof {
                taken = taken.push(doc->Some_0);
            }
            n = n + 1;
        }
        proof {
            assert(self@.subrange(old(self)@.len() as int, self@.len() as int) =~= taken);
        }
        n
    }
}

/// The sum of a sequence of counts.
pub open spec fn sum_counts(counts: Seq<nat>) -> nat
    decreases counts.len(),
{
    if counts.len() == 0 {
        0
    } else {
        sum_counts(counts.drop_last()) + counts.last()
    }
}

/// Over any sequence of intake calls, where the registry's size grows by
/// exactly the count each call reports, the final size equals the initial
/// size plus the cumulative count of documents received.
pub proof fn lemma_intake_total(sizes: Seq<nat>, counts: Seq<nat>)
    requires
        sizes.len() == counts.len() + 1,
        forall|k: int| 0 <= k < counts.len() ==> sizes[k + 1] == sizes[k] + #[trigger] counts[k],
    ensures
        sizes.last() == sizes[0] + sum_counts(counts),
    decreases counts.len(),
{
    if counts.len() > 0 {
        let k = counts.len() - 1;
        lemma_intake_total(sizes.drop_last(), counts.drop_last());
        assert(sizes[k + 1] == sizes[k] + counts[k]);
    }
}

} // verus!
