//! The consumer side: the toggle schedule and the decisions that advance it.
//!
//! Time is a count of ticks of one free-running monotonic counter. The
//! schedule is modelled over unbounded integers by [`Schedule`]; the
//! executable [`DriftFreeScheduler`] refines that model on `u64` ticks.

use vstd::prelude::*;
use crate::config::{FAST_PERIOD, SLOW_PERIOD};
use crate::event::InputEvent;
use crate::queue::EventQueue;

verus! {

/// A point on the monotonic counter, in ticks.
pub type Timestamp = u64;

/// A span of ticks.
pub type Duration = u64;

/// The period that an input level selects.
pub open spec fn period_for(pressed: bool) -> int {
    if pressed {
        FAST_PERIOD as int
    } else {
        SLOW_PERIOD as int
    }
}

/// What ended a wait of the scheduler.
#[derive(Clone, Copy, Debug, PartialEq, Eq, Structural)]
pub enum Wake {
    /// An event was taken from the queue.
    Event(InputEvent),
    /// The clock reached the deadline.
    Deadline,
    /// The wait ended although neither an event nor the deadline arrived.
    Spurious,
}

/// What the caller has to do to the output after a step.
#[derive(Clone, Copy, Debug, PartialEq, Eq, Structural)]
pub enum Action {
    /// Leave the output as it is.
    Hold,
    /// Drive the output to the given level (`true` is on).
    Drive(bool),
}

/// The mathematical model of the schedule.
pub struct Schedule {
    pub output_on: bool,
    pub last_toggle: int,
    pub period: int,
    pub next_deadline: int,
}

impl Schedule {
    /// The period is one of the two rates and the deadline is exactly one
    /// period after the last scheduled toggle.
    pub open spec fn wf(self) -> bool {
        &&& (self.period == FAST_PERIOD || self.period == SLOW_PERIOD)
        &&& self.last_toggle >= 0
        &&& self.next_deadline == self.last_toggle + self.period
    }

    /// The schedule at startup: output off, slow rate, anchored at `start`.
    pub open spec fn initial(start: int) -> Schedule {
        Schedule {
            output_on: false,
            last_toggle: start,
            period: SLOW_PERIOD as int,
            next_deadline: start + SLOW_PERIOD,
        }
    }

    /// Whether the deadline has arrived at `now`.
    pub open spec fn is_due(self, now: int) -> bool {
        now >= self.next_deadline
    }

    /// The deadline fires: the output flips and the schedule advances by one
    /// period from the scheduled instant, whatever the clock reads.
    pub open spec fn fire(self) -> Schedule {
        Schedule {
            output_on: !self.output_on,
            last_toggle: self.next_deadline,
            period: self.period,
            next_deadline: self.next_deadline + self.period,
        }
    }

    /// An event arrives at `now`: the rate follows the level and the schedule
    /// is anchored at `now`. The output stays as it is.
    pub open spec fn retime(self, pressed: bool, now: int) -> Schedule {
        Schedule {
            output_on: self.output_on,
            last_toggle: now,
            period: period_for(pressed),
            next_deadline: now + period_for(pressed),
        }
    }

    /// The schedule after a wait that ended with `wake` at `now`.
    pub open spec fn step(self, wake: Wake, now: int) -> Schedule {
        match wake {
            Wake::Event(e) => self.retime(e.pressed, now),
            Wake::Deadline => self.fire(),
            Wake::Spurious => self,
        }
    }

    /// What a wait that ended with `wake` asks of the output.
    pub open spec fn action(self, wake: Wake) -> Action {
        match wake {
            Wake::Deadline => Action::Drive(!self.output_on),
            _ => Action::Hold,
        }
    }

    /// The catch-up at the entry of an iteration: fire if already due.
    pub open spec fn catch_up(self, now: int) -> Schedule {
        if self.is_due(now) {
            self.fire()
        } else {
            self
        }
    }

    /// The schedule after `k` deadlines in a row with no event between them.
    pub open spec fn fire_n(self, k: nat) -> Schedule
        decreases k,
    {
        if k == 0 {
            self
        } else {
            self.fire_n((k - 1) as nat).fire()
        }
    }
}

/// The race between the queue and the clock, decided on what is at hand at
/// `now`: an event wins over a deadline that is due at the same instant; with
/// neither, the wait goes on.
pub open spec fn race(event: Option<InputEvent>, schedule: Schedule, now: int) -> Option<Wake> {
    match event {
        Some(e) => Some(Wake::Event(e)),
        None => if schedule.is_due(now) {
            Some(Wake::Deadline)
        } else {
            None
        },
    }
}

/// The oldest event of a queue's contents, if there is one.
pub open spec fn head(q: Seq<InputEvent>) -> Option<InputEvent> {
    if q.len() > 0 {
        Some(q.first())
    } else {
        None
    }
}

/// The contents of a queue after its oldest event, if any, was taken.
pub open spec fn rest(q: Seq<InputEvent>) -> Seq<InputEvent> {
    if q.len() > 0 {
        q.drop_first()
    } else {
        q
    }
}

/// The schedule after the waits in `wakes`, each given with the reading of
/// the clock at which it ended, in order.
pub open spec fn run(schedule: Schedule, wakes: Seq<(Wake, int)>) -> Schedule
    decreases wakes.len(),
{
    if wakes.len() == 0 {
        schedule
    } else {
        run(schedule, wakes.drop_last()).step(wakes.last().0, wakes.last().1)
    }
}

/// The number of deadlines among `wakes`.
pub open spec fn deadlines_in(wakes: Seq<(Wake, int)>) -> nat
    decreases wakes.len(),
{
    if wakes.len() == 0 {
        0
    } else {
        deadlines_in(wakes.drop_last()) + if wakes.last().0 == Wake::Deadline {
            1nat
        } else {
            0nat
        }
    }
}

/// A snapshot of the scheduler's working state, in ticks.
#[derive(Clone, Copy, Debug, PartialEq, Eq, Structural)]
pub struct ScheduleState {
    pub output_on: bool,
    pub last_toggle: Timestamp,
    pub period: Duration,
    pub next_deadline: Timestamp,
}

impl View for ScheduleState {
    type V = Schedule;

    open spec fn view(&self) -> Schedule {
        Schedule {
            output_on: self.output_on,
            last_toggle: self.last_toggle as int,
            period: self.period as int,
            next_deadline: self.next_deadline as int,
        }
    }
}

/// The period, in ticks, that an input level selects.
pub fn period_ticks(pressed: bool) -> (p: Duration)
    ensures
        p == period_for(pressed),
{
    if pressed {
        FAST_PERIOD
    } else {
        SLOW_PERIOD
    }
}

/// Owner of the schedule. Nothing outside mutates its state.
pub struct DriftFreeScheduler {
    state: ScheduleState,
}

impl View for DriftFreeScheduler {
    type V = Schedule;

    closed spec fn view(&self) -> Schedule {
        self.state@
    }
}

impl DriftFreeScheduler {
    /// The schedule is well formed and fits the counter.
    pub open spec fn wf(&self) -> bool {
        &&& self@.wf()
        &&& self@.next_deadline <= u64::MAX
    }

    /// A scheduler whose clock reads `start`: output off, slow rate.
    pub fn new(start: Timestamp) -> (s: DriftFreeScheduler)
        requires
            start + SLOW_PERIOD <= u64::MAX,
        ensures
            s.wf(),
            s@ == Schedule::initial(start as int),
    {
        DriftFreeScheduler {
            state: ScheduleState {
                output_on: false,
                last_toggle: start,
                period: SLOW_PERIOD,
                next_deadline: start + SLOW_PERIOD,
            },
        }
    }

    /// The current state.
    pub fn state(&self) -> (s: ScheduleState)
        ensures
            s@ == self@,
    {
        self.state
    }

    /// Whether the output is on.
    pub fn output_on(&self) -> (on: bool)
        ensures
            on == self@.output_on,
    {
        self.state.output_on
    }

    /// The scheduled instant of the last toggle, or the anchor set by the
    /// last event.
    pub fn last_toggle(&self) -> (t: Timestamp)
        ensures
            t == self@.last_toggle,
    {
        self.state.last_toggle
    }

    /// The current toggle period.
    pub fn period(&self) -> (p: Duration)
        ensures
            p == self@.period,
    {
        self.state.period
    }

    /// The absolute instant at which the next toggle is due.
    pub fn next_deadline(&self) -> (t: Timestamp)
        ensures
            t == self@.next_deadline,
    {
        self.state.next_deadline
    }

    /// Whether the deadline has arrived at `now`.
    pub fn is_due(&self, now: Timestamp) -> (due: bool)
        ensures
            due == self@.is_due(now as int),
    {
        now >= self.state.next_deadline
    }

    /// The deadline fired. Flips the output and advances the schedule by one
    /// period from the scheduled instant. Returns the level to drive.
    pub fn on_deadline(&mut self) -> (level: bool)
        requires
            old(self).wf(),
            old(self)@.next_deadline + old(self)@.period <= u64::MAX,
        ensures
            final(self).wf(),
            final(self)@ == old(self)@.fire(),
            level == !old(self)@.output_on,
    {
        let level = !self.state.output_on;
        let fired = self.state.next_deadline;
        self.state = ScheduleState {
            output_on: level,
            last_toggle: fired,
            period: self.state.period,
            next_deadline: fired + self.state.period,
        };
        level
    }

    /// An event was received at `now`. Sets the rate from the event's level
    /// and anchors the schedule at `now`; a repeated level is processed like
    /// any other. The output is not touched.
    pub fn on_event(&mut self, event: InputEvent, now: Timestamp)
        requires
            old(self).wf(),
            now + period_for(event.pressed) <= u64::MAX,
        ensures
            final(self).wf(),
            final(self)@ == old(self)@.retime(event.pressed, now as int),
    {
        let period = period_ticks(event.pressed);
        self.state = ScheduleState {
            output_on: self.state.output_on,
            last_toggle: now,
            period,
            next_deadline: now + period,
        };
    }

    /// The catch-up at the entry of an iteration: if the deadline has already
    /// arrived at `now`, toggles at once and returns the level to drive.
    pub fn catch_up(&mut self, now: Timestamp) -> (action: Action)
        requires
            old(self).wf(),
            old(self)@.is_due(now as int) ==> old(self)@.next_deadline + old(self)@.period
                <= u64::MAX,
        ensures
            final(self).wf(),
            final(self)@ == old(self)@.catch_up(now as int),
            old(self)@.is_due(now as int) ==> action == Action::Drive(!old(self)@.output_on),
            !old(self)@.is_due(now as int) ==> action == Action::Hold,
    {
        if self.is_due(now) {
            let level = self.on_deadline();
            Action::Drive(level)
        } else {
            Action::Hold
        }
    }

    /// A wait ended with `wake` at `now`. Only a deadline asks for the output
    /// to be driven; a spurious wake changes nothing, and the caller goes on
    /// with a fresh reading of the clock.
    pub fn on_wake(&mut self, wake: Wake, now: Timestamp) -> (action: Action)
        requires
            old(self).wf(),
            wake matches Wake::Event(e) ==> now + period_for(e.pressed) <= u64::MAX,
            wake == Wake::Deadline ==> old(self)@.next_deadline + old(self)@.period <= u64::MAX,
        ensures
            final(self).wf(),
            final(self)@ == old(self)@.step(wake, now as int),
            action == old(self)@.action(wake),
    {
        match wake {
            Wake::Event(e) => {
                self.on_event(e, now);
                Action::Hold
            },
            Wake::Deadline => {
                let level = self.on_deadline();
                Action::Drive(level)
            },
            Wake::Spurious => Action::Hold,
        }
    }

    /// Decides the race on what is at hand at `now`: `event` is what the queue
    /// gave, if anything. An event wins over a deadline due at the same
    /// instant. `None` means that neither has arrived.
    pub fn decide(&self, event: Option<InputEvent>, now: Timestamp) -> (wake: Option<Wake>)
        ensures
            wake == race(event, self@, now as int),
    {
        match event {
            Some(e) => Some(Wake::Event(e)),
            None => if self.is_due(now) {
                Some(Wake::Deadline)
            } else {
                None
            },
        }
    }

    /// One pass of the loop without blocking, at clock reading `now`: takes
    /// the oldest event from `queue` if there is one, else lets the deadline
    /// fire if it is due, else does nothing.
    pub fn poll(&mut self, queue: &mut EventQueue, now: Timestamp) -> (action: Action)
        requires
            old(self).wf(),
            old(queue).wf(),
            old(queue)@.len() > 0 ==> now + period_for(old(queue)@.first().pressed) <= u64::MAX,
            old(queue)@.len() == 0 && old(self)@.is_due(now as int) ==> old(self)@.next_deadline
                + old(self)@.period <= u64::MAX,
        ensures
            final(self).wf(),
            final(queue).wf(),
            final(queue)@ == rest(old(queue)@),
            match race(head(old(queue)@), old(self)@, now as int) {
                Some(wake) => final(self)@ == old(self)@.step(wake, now as int) && action == old(
                    self,
                )@.action(wake),
                None => final(self)@ == old(self)@ && action == Action::Hold,
            },
    {
        let event = queue.try_receive();
        match self.decide(event, now) {
            Some(wake) => self.on_wake(wake, now),
            None => Action::Hold,
        }
    }
}

} // verus!
