//! Event selection for agents: a filter names the emitter and tag an agent
//! cares about, and a stream of broadcast batches is reduced to the events
//! that match any of the agent's filters, in their broadcast order.

use vstd::prelude::*;

use crate::types::Event;

verus! {

/// One event filter: events from this emitter with this tag pass.
#[derive(Clone, Copy, PartialEq, Eq, Structural, Debug)]
pub struct SimulationEventFilter {
    /// The emitting account to match.
    pub emitter: u64,
    /// The event tag to match.
    pub tag: u64,
}

/// Whether `e` passes filter `f`.
pub open spec fn matches_filter(f: SimulationEventFilter, e: Event) -> bool {
    f.emitter == e.emitter && f.tag == e.tag
}

/// Whether `e` passes at least one of the filters.
pub open spec fn matches_any(fs: Seq<SimulationEventFilter>, e: Event) -> bool {
    exists|i: int| 0 <= i < fs.len() && matches_filter(#[trigger] fs[i], e)
}

/// The events of one broadcast batch that pass at least one filter, in
/// their broadcast order.
pub fn filter_events(filters: &Vec<SimulationEventFilter>, logs: &Vec<Event>) -> (r: Vec<Event>)
    ensures
        r@ == logs@.filter(|e: Event| matches_any(filters@, e)),
{
    let ghost pred = |e: Event| matches_any(filters@, e);
    let mut r: Vec<Event> = Vec::new();
    let mut i: usize = 0;
    while i < logs.len()
        invariant
            i <= logs@.len(),
            r@ == logs@.take(i as int).filter(|e: Event| matches_any(filters@, e)),
        decreases logs@.len() - i,
    {
        let e = logs[i];
        let mut hit = false;
        let mut f: usize = 0;
        while f < filters.len()
            invariant
                f <= filters@.len(),
                (hit <==> exists|k: int|
                    0 <= k < f && matches_filter(#[trigger] filters@[k], e)),
            decreases filters@.len() - f,
        {
            if filters[f].emitter == e.emitter && filters[f].tag == e.tag {
                hit = true;
            }
            f = f + 1;
        }
        if hit {
            r.push(e);
        }
        proof {
            reveal_with_fuel(Seq::filter, 2);
            assert(logs@.take(i + 1 as int).drop_last() =~= logs@.take(i as int));
            assert(logs@.take(i + 1 as int).last() == logs@[i as int]);
            assert(hit <==> matches_any(filters@, e));
        }
        i = i + 1;
    }
    proof {
        assert(logs@.take(logs@.len() as int) =~= logs@);
    }
    r
}

/// A per-agent view on the broadcast event channel: holds the agent's
/// filters and reduces each received batch to what the agent listens for.
pub struct EventStream {
    /// The agent's filters; an event passing any of them is kept.
    pub filters: Vec<SimulationEventFilter>,
}

impl EventStream {
    /// A stream keeping events that pass any of the given filters.
    pub fn new(filters: Vec<SimulationEventFilter>) -> (r: EventStream)
        ensures
            r.filters@ == filters@,
    {
        EventStream { filters }
    }

    /// The next item of the stream, given the batch just received from the
    /// broadcast channel: every event of the batch this agent listens for,
    /// in broadcast order — a broadcast batch reaches the subscriber whole,
    /// never cut down to its first match.
    pub fn next(&self, logs: &Vec<Event>) -> (r: Vec<Event>)
        ensures
            r@ == logs@.filter(|e: Event| matches_any(self.filters@, e)),
    {
        filter_events(&self.filters, logs)
    }
}

/// Law (broadcast completeness across subscribers): two subscribers with
/// the same filters observe exactly the same events, in the same order, on
/// every batch. Subscribers with different filters are excluded: they
/// listen for different events by design.
pub proof fn lemma_subscribers_agree(a: EventStream, b: EventStream, logs: Seq<Event>)
    requires
        a.filters@ == b.filters@,
    ensures
        logs.filter(|e: Event| matches_any(a.filters@, e)) == logs.filter(
            |e: Event| matches_any(b.filters@, e),
        ),
{
}

} // verus!
