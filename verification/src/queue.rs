use vstd::prelude::*;
use crate::events::BrowserEvent;

verus! {

/// An ordered, append-only buffer of outbound engine events. Arrival order
/// is insertion order; the host drains the whole buffer atomically on each
/// poll, and nothing is ever reordered, duplicated or dropped.
pub struct EventQueue {
    events: Vec<BrowserEvent>,
}

impl View for EventQueue {
    type V = Seq<BrowserEvent>;

    closed spec fn view(&self) -> Seq<BrowserEvent> {
        self.events@
    }
}

impl EventQueue {
    /// A fresh, empty queue.
    pub fn new() -> (r: EventQueue)
        ensures
            r@ == Seq::<BrowserEvent>::empty(),
    {
        EventQueue { events: Vec::new() }
    }

    /// Appends one event after everything already queued.
    pub fn push(&mut self, event: BrowserEvent)
        ensures
            final(self)@ == old(self)@.push(event),
    {
        self.events.push(event);
    }

    /// Atomically removes and returns the entire content in arrival order,
    /// leaving the queue empty. Draining an empty queue returns an empty
    /// sequence and is always safe to repeat.
    pub fn drain(&mut self) -> (r: Vec<BrowserEvent>)
        ensures
            r@ == old(self)@,
            final(self)@ == Seq::<BrowserEvent>::empty(),
    {
        let mut out: Vec<BrowserEvent> = Vec::new();
        core::mem::swap(&mut out, &mut self.events);
        out
    }
}

/// The queue content after a run of appends: each arrival pushed in turn
/// onto what the queue already held.
pub open spec fn enqueued(base: Seq<BrowserEvent>, arrivals: Seq<BrowserEvent>) -> Seq<BrowserEvent>
    decreases arrivals.len(),
{
    if arrivals.len() == 0 {
        base
    } else {
        enqueued(base.push(arrivals[0]), arrivals.drop_first())
    }
}

/// Appending a run of arrivals adds exactly those events, after the ones
/// already held and in arrival order: no reordering, duplication or loss.
/// With an empty starting queue, a drain after the run therefore returns
/// precisely the arrivals, and a second drain returns an empty sequence.
pub proof fn lemma_enqueued_is_concatenation(base: Seq<BrowserEvent>, arrivals: Seq<BrowserEvent>)
    ensures
        enqueued(base, arrivals) == base + arrivals,
    decreases arrivals.len(),
{
    if arrivals.len() == 0 {
        assert(base + arrivals =~= base);
    } else {
        lemma_enqueued_is_concatenation(base.push(arrivals[0]), arrivals.drop_first());
        assert(base.push(arrivals[0]) + arrivals.drop_first() =~= base + arrivals);
    }
}

} // verus!
