//! The producer side: turning transitions of the input line into events.
//!
//! The monitor does no debouncing and no filtering: every transition that is
//! reported to it becomes one event.

use vstd::prelude::*;
use crate::event::InputEvent;
use crate::queue::{offer, EventQueue};

verus! {

/// A transition of the input line.
#[derive(Clone, Copy, Debug, PartialEq, Eq, Structural)]
pub enum Edge {
    /// Low to high: the input was pressed.
    Rising,
    /// High to low: the input was released.
    Falling,
}

impl Edge {
    /// The other edge.
    pub open spec fn opposite(self) -> Edge {
        match self {
            Edge::Rising => Edge::Falling,
            Edge::Falling => Edge::Rising,
        }
    }

    /// The event that this edge produces.
    pub open spec fn event(self) -> InputEvent {
        InputEvent { pressed: self == Edge::Rising }
    }
}

/// The edge that the monitor waits for before its `k`-th event, counted from
/// zero: rising first, then strictly alternating.
pub open spec fn awaited_after(k: nat) -> Edge {
    if k % 2 == 0 {
        Edge::Rising
    } else {
        Edge::Falling
    }
}

/// The two-state machine of the producer. Its state is the edge it waits for.
pub struct EdgeMonitor {
    awaiting: Edge,
}

impl View for EdgeMonitor {
    type V = Edge;

    closed spec fn view(&self) -> Edge {
        self.awaiting
    }
}

impl EdgeMonitor {
    /// A monitor for a line that starts released: it waits for a rising edge.
    pub fn new() -> (m: EdgeMonitor)
        ensures
            m@ == Edge::Rising,
    {
        EdgeMonitor { awaiting: Edge::Rising }
    }

    /// The edge to wait for next.
    pub fn awaiting(&self) -> (edge: Edge)
        ensures
            edge == self@,
    {
        self.awaiting
    }

    /// The awaited edge occurred. Returns the event to publish and turns to
    /// the other edge, so that the same edge is never awaited twice in a row.
    pub fn on_edge(&mut self) -> (event: InputEvent)
        ensures
            event == old(self)@.event(),
            final(self)@ == old(self)@.opposite(),
    {
        match self.awaiting {
            Edge::Rising => {
                self.awaiting = Edge::Falling;
                InputEvent { pressed: true }
            },
            Edge::Falling => {
                self.awaiting = Edge::Rising;
                InputEvent { pressed: false }
            },
        }
    }

    /// The awaited edge occurred and the producer must not block: the event
    /// is sent if the queue has room and dropped otherwise. Returns whether
    /// it was queued. The monitor turns to the other edge either way.
    pub fn publish(&mut self, queue: &mut EventQueue) -> (sent: bool)
        requires
            old(queue).wf(),
        ensures
            final(queue).wf(),
            final(self)@ == old(self)@.opposite(),
            final(queue)@ == offer(old(queue)@, old(self)@.event()),
            sent == (old(queue)@.len() < crate::config::QUEUE_CAPACITY),
    {
        let event = self.on_edge();
        queue.try_send(event)
    }
}

/// The handler of an edge interrupt, after the pending flag was cleared:
/// reports the level read from the line, pressed when high. The send never
/// blocks; on a full queue the event is dropped. Returns whether it was queued.
pub fn report_level(level: bool, queue: &mut EventQueue) -> (sent: bool)
    requires
        old(queue).wf(),
    ensures
        final(queue).wf(),
        final(queue)@ == offer(old(queue)@, InputEvent { pressed: level }),
        sent == (old(queue)@.len() < crate::config::QUEUE_CAPACITY),
{
    queue.try_send(InputEvent::from_level(level))
}

} // verus!
