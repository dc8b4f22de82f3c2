//! Theorems about the schedule and the queue, stated over their models.

use vstd::prelude::*;
use crate::config::{FAST_PERIOD, QUEUE_CAPACITY};
use crate::edge::{awaited_after, Edge};
use crate::event::InputEvent;
use crate::queue::{offer, offer_all};
use crate::scheduler::{deadlines_in, period_for, run, Schedule, Wake};

verus! {

/// The deadline is always exactly one period after the last scheduled toggle,
/// and the period one of the two rates: no run of waits, ended by whatever
/// and whenever, takes a well-formed schedule out of that.
pub proof fn run_preserves_wf(s: Schedule, wakes: Seq<(Wake, int)>)
    requires
        s.wf(),
        forall|i: int| 0 <= i < wakes.len() ==> (#[trigger] wakes[i]).1 >= 0,
    ensures
        run(s, wakes).wf(),
    decreases wakes.len(),
{
    if wakes.len() > 0 {
        let front = wakes.drop_last();
        assert forall|i: int| 0 <= i < front.len() implies (#[trigger] front[i]).1 >= 0 by {
            assert(front[i] == wakes[i]);
        }
        run_preserves_wf(s, front);
        assert(wakes.last() == wakes[wakes.len() - 1]);
    }
}

/// No drift: after `k` deadlines in a row the last toggle is scheduled at
/// exactly the anchor plus `k` periods, the next at one period more, the rate
/// is unchanged and the output has flipped `k` times.
pub proof fn fire_n_is_exact(s: Schedule, k: nat)
    requires
        s.wf(),
    ensures
        s.fire_n(k).wf(),
        s.fire_n(k).period == s.period,
        s.fire_n(k).last_toggle == s.last_toggle + k * s.period,
        s.fire_n(k).next_deadline == s.last_toggle + (k + 1) * s.period,
        s.fire_n(k).output_on == (s.output_on != (k % 2 == 1)),
    decreases k,
{
    let p = s.period;
    if k == 0 {
        assert(0 * p == 0 && 1 * p == p) by (nonlinear_arith);
    } else {
        let j = (k - 1) as nat;
        fire_n_is_exact(s, j);
        assert((j + 1) * p == j * p + p && (j + 2) * p == (j + 1) * p + p) by (nonlinear_arith);
    }
}

/// The readings of the clock at which deadline waits end have no influence:
/// a run of deadlines only, whenever each was dispatched, leaves the schedule
/// where the same number of exact firings leaves it, with the last toggle at
/// the anchor plus that many periods.
pub proof fn deadline_run_ignores_latency(s: Schedule, wakes: Seq<(Wake, int)>)
    requires
        s.wf(),
        forall|i: int| 0 <= i < wakes.len() ==> (#[trigger] wakes[i]).0 == Wake::Deadline,
    ensures
        run(s, wakes) == s.fire_n(wakes.len()),
        run(s, wakes).last_toggle == s.last_toggle + wakes.len() * s.period,
    decreases wakes.len(),
{
    if wakes.len() > 0 {
        let front = wakes.drop_last();
        assert forall|i: int| 0 <= i < front.len() implies (#[trigger] front[i]).0
            == Wake::Deadline by {
            assert(front[i] == wakes[i]);
        }
        deadline_run_ignores_latency(s, front);
        assert(wakes.last() == wakes[wakes.len() - 1]);
    }
    fire_n_is_exact(s, wakes.len());
}

/// Rate application: an event at `now` puts the next toggle at exactly `now`
/// plus the period of the event's level, and the `k`-th toggle after it, with
/// no event between, at `now` plus `k` such periods.
pub proof fn rate_applies_from_event(s: Schedule, pressed: bool, now: int, k: nat)
    requires
        now >= 0,
    ensures
        s.retime(pressed, now).wf(),
        s.retime(pressed, now).next_deadline == now + period_for(pressed),
        s.retime(pressed, now).fire_n(k).last_toggle == now + k * period_for(pressed),
        s.retime(pressed, now).fire_n(k).period == period_for(pressed),
{
    fire_n_is_exact(s.retime(pressed, now), k);
}

/// An event never flips the output, and neither does a spurious wake: after
/// any run the output has flipped once for each deadline in it and not
/// otherwise.
pub proof fn only_deadlines_toggle(s: Schedule, wakes: Seq<(Wake, int)>)
    ensures
        run(s, wakes).output_on == (s.output_on != (deadlines_in(wakes) % 2 == 1)),
        forall|e: InputEvent, now: int| #[trigger]
            s.step(Wake::Event(e), now).output_on == s.output_on,
    decreases wakes.len(),
{
    if wakes.len() > 0 {
        only_deadlines_toggle(s, wakes.drop_last());
    }
}

/// Repeats of one level: a second event of the same level leaves the rate and
/// the output as the first left them and only moves the anchor; the result is
/// what the second event alone would have given.
pub proof fn repeated_level_reanchors(s: Schedule, pressed: bool, first: int, second: int)
    ensures
        s.retime(pressed, first).retime(pressed, second) == s.retime(pressed, second),
        s.retime(pressed, first).retime(pressed, second).period == period_for(pressed),
        s.retime(pressed, first).retime(pressed, second).last_toggle == second,
        s.retime(pressed, first).retime(pressed, second).output_on == s.output_on,
        pressed ==> s.retime(pressed, first).retime(pressed, second).period == FAST_PERIOD,
{
}

/// Queue bound: best-effort sends with nothing consumed between them never
/// take the queue over its capacity. What was buffered stays in front, the
/// events for which there was room follow in order, the rest is dropped.
pub proof fn offers_keep_bound(q: Seq<InputEvent>, es: Seq<InputEvent>)
    requires
        q.len() <= QUEUE_CAPACITY,
    ensures
        offer_all(q, es).len() <= QUEUE_CAPACITY,
        offer_all(q, es).len() == if q.len() + es.len() <= QUEUE_CAPACITY {
            q.len() + es.len()
        } else {
            QUEUE_CAPACITY as nat
        },
        offer_all(q, es) == q + es.take(offer_all(q, es).len() - q.len()),
    decreases es.len(),
{
    if es.len() == 0 {
        assert(q + es.take(0) =~= q);
    } else {
        let q1 = offer(q, es.first());
        let tail = es.drop_first();
        offers_keep_bound(q1, tail);
        let out = offer_all(q, es);
        let n = out.len() - q.len();
        if q.len() < QUEUE_CAPACITY {
            assert(q1 + tail.take(out.len() - q1.len()) =~= q + es.take(n));
        } else {
            assert(tail.take(0) =~= es.take(0));
        }
    }
}

/// The monitor's edges alternate strictly, rising first.
pub proof fn edges_alternate(k: nat)
    ensures
        awaited_after(0) == Edge::Rising,
        awaited_after(k + 1) == awaited_after(k).opposite(),
        awaited_after(k).event().pressed == (k % 2 == 0),
{
}

} // verus!
