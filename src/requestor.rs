use vstd::prelude::*;

verus! {

/// A target of load: its identity and base address.
#[derive(Debug, Clone)]
pub struct Host {
    pub name: String,
    pub base_url: String,
}

impl Host {
    pub fn new(name: String, base_url: String) -> (r: Host)
        ensures
            r.name@ == name@,
            r.base_url@ == base_url@,
    {
        Host { name, base_url }
    }
}

/// How one request ended.
#[derive(Debug, Clone, Copy, PartialEq, Eq, Hash, Structural)]
pub enum RequestStatus {
    Success,
    Failure,
}

/// The key of the request counter family: the host and how the request
/// ended.
#[derive(Debug, Clone, PartialEq, Eq, Hash)]
pub struct Labels {
    pub host: String,
    pub status: RequestStatus,
}

impl Labels {
    /// The labels under which a request to `host` is counted.
    pub fn for_request(host: &Host, succeeded: bool) -> (r: Labels)
        ensures
            r.host@ == host.name@,
            r.status == (if succeeded {
                RequestStatus::Success
            } else {
                RequestStatus::Failure
            }),
    {
        let status = if succeeded {
            RequestStatus::Success
        } else {
            RequestStatus::Failure
        };
        Labels { host: host.name.clone(), status }
    }
}

/// What a requestor's subscription yielded.
#[derive(Debug, Clone, Copy, PartialEq, Eq, Structural)]
pub enum BatchEvent {
    /// A batch with this many queries.
    Batch(usize),
    /// The subscription fell behind and this many batches were lost.
    Lagged(u64),
    /// Every sender is gone; no batch will come.
    Closed,
}

/// What a requestor does next.
#[derive(Debug, Clone, Copy, PartialEq, Eq, Structural)]
pub enum RequestorAction {
    /// Issue this many requests, one per query, then receive again.
    Issue(usize),
    /// Receive again.
    Receive,
    /// Leave the loop.
    Stop,
}

/// A requestor's bookkeeping: batches received and batches lost to lag.
#[derive(Debug, Clone, Copy, PartialEq, Eq, Structural)]
pub struct RequestorState {
    pub batches_received: u64,
    pub batches_missed: u64,
}

/// `a + b`, held at the largest `u64`.
pub open spec fn spec_saturating_add(a: int, b: int) -> int {
    if a + b > u64::MAX {
        u64::MAX as int
    } else {
        a + b
    }
}

/// The bookkeeping after one event.
pub open spec fn spec_after(s: RequestorState, event: BatchEvent) -> RequestorState {
    match event {
        BatchEvent::Batch(_) => RequestorState {
            batches_received: spec_saturating_add(s.batches_received as int, 1) as u64,
            ..s
        },
        BatchEvent::Lagged(k) => RequestorState {
            batches_missed: spec_saturating_add(s.batches_missed as int, k as int) as u64,
            ..s
        },
        BatchEvent::Closed => s,
    }
}

/// The bookkeeping after a sequence of events, in order.
pub open spec fn spec_after_all(s: RequestorState, events: Seq<BatchEvent>) -> RequestorState
    decreases events.len(),
{
    if events.len() == 0 {
        s
    } else {
        spec_after(spec_after_all(s, events.drop_last()), events.last())
    }
}

/// While a subscription does not lag, every batch it yields is counted
/// exactly once: after a run of batch events the received count has grown
/// by the number of events (short of saturation) and nothing is missed.
pub proof fn lemma_batches_counted_once(s: RequestorState, events: Seq<BatchEvent>)
    requires
        forall|i: int| 0 <= i < events.len() ==> (#[trigger] events[i]) is Batch,
        s.batches_received + events.len() <= u64::MAX,
    ensures
        spec_after_all(s, events).batches_received == s.batches_received + events.len(),
        spec_after_all(s, events).batches_missed == s.batches_missed,
    decreases events.len(),
{
    if events.len() > 0 {
        let prefix = events.drop_last();
        assert forall|i: int| 0 <= i < prefix.len() implies (#[trigger] prefix[i]) is Batch by {
            assert(prefix[i] == events[i]);
        }
        lemma_batches_counted_once(s, prefix);
        assert(events[events.len() - 1] is Batch);
    }
}

impl RequestorState {
    pub fn new() -> (r: RequestorState)
        ensures
            r.batches_received == 0,
            r.batches_missed == 0,
    {
        RequestorState { batches_received: 0, batches_missed: 0 }
    }

    /// Decides what follows an event. A batch is processed whole; a lag is
    /// not fatal: the lost batches are counted and receiving goes on; only
    /// a closed channel ends the loop. Counts saturate.
    pub fn on_event(&mut self, event: BatchEvent) -> (r: RequestorAction)
        ensures
            match event {
                BatchEvent::Batch(n) => {
                    &&& r == RequestorAction::Issue(n)
                    &&& final(self).batches_received as int == spec_saturating_add(old(self).batches_received as int, 1)
                    &&& final(self).batches_missed == old(self).batches_missed
                },
                BatchEvent::Lagged(k) => {
                    &&& r == RequestorAction::Receive
                    &&& final(self).batches_received == old(self).batches_received
                    &&& final(self).batches_missed as int == spec_saturating_add(old(self).batches_missed as int, k as int)
                },
                BatchEvent::Closed => {
                    &&& r == RequestorAction::Stop
                    &&& *final(self) == *old(self)
                },
            },
            *final(self) == spec_after(*old(self), event),
    {
        match event {
            BatchEvent::Batch(n) => {
                self.batches_received = self.batches_received.saturating_add(1);
                RequestorAction::Issue(n)
            },
            BatchEvent::Lagged(k) => {
                self.batches_missed = self.batches_missed.saturating_add(k);
                RequestorAction::Receive
            },
            BatchEvent::Closed => RequestorAction::Stop,
        }
    }
}

} // verus!
