//! The bounded FIFO between the edge monitor and the scheduler.
//!
//! The buffer itself is a channel of `embassy-sync`. [`EventQueue`] owns one
//! and reaches it only through exclusive borrows, so that what the channel
//! holds is a function of the queue's value and the channel's lock can be the
//! no-op one. Sharing a queue between an interrupt handler and a task is the
//! integrator's part: a cell guarded by a critical section does it.
//!
//! Everything said here about the channel is taken on trust from its source;
//! the rest of the module is proved from that.

use vstd::prelude::*;
use embassy_sync::blocking_mutex::raw::NoopRawMutex;
use embassy_sync::channel::Channel;
use crate::config::QUEUE_CAPACITY;
use crate::event::InputEvent;

verus! {

/// The buffer: a channel of `embassy-sync` for pressed flags, with room for
/// [`QUEUE_CAPACITY`] messages. Proofs do not look inside; what it
/// holds is named by [`buffer_contents`].
#[verifier::external_body]
pub struct EventBuffer {
    channel: Channel<NoopRawMutex, bool, QUEUE_CAPACITY>,
}

/// The messages that the buffer's channel holds, oldest first.
pub uninterp spec fn buffer_contents(buf: EventBuffer) -> Seq<bool>;

/// `embassy_sync::channel::Channel::new`: the new channel buffers nothing.
#[verifier::external_body]
fn buffer_new() -> (buf: EventBuffer)
    ensures
        buffer_contents(buf) == Seq::<bool>::empty(),
{
    EventBuffer { channel: Channel::new() }
}

/// `embassy_sync::channel::Channel::try_send`: below capacity the message is appended behind the
/// buffered ones and the call succeeds; at capacity the call fails and the
/// buffer is left as it was.
#[verifier::external_body]
fn buffer_try_send(buf: &mut EventBuffer, message: bool) -> (sent: bool)
    ensures
        sent == (buffer_contents(*old(buf)).len() < QUEUE_CAPACITY),
        sent ==> buffer_contents(*final(buf)) == buffer_contents(*old(buf)).push(message),
        !sent ==> buffer_contents(*final(buf)) == buffer_contents(*old(buf)),
{
    buf.channel.try_send(message).is_ok()
}

/// `embassy_sync::channel::Channel::try_receive`: the oldest buffered message is removed and
/// returned; an empty channel gives nothing and stays empty.
#[verifier::external_body]
fn buffer_try_receive(buf: &mut EventBuffer) -> (got: Option<bool>)
    ensures
        got is Some == (buffer_contents(*old(buf)).len() > 0),
        got is Some ==> got == Some(buffer_contents(*old(buf)).first())
            && buffer_contents(*final(buf)) == buffer_contents(*old(buf)).drop_first(),
        got is None ==> buffer_contents(*final(buf)) == buffer_contents(*old(buf)),
{
    buf.channel.try_receive().ok()
}

/// `embassy_sync::channel::Channel::len`: the number of buffered messages.
#[verifier::external_body]
fn buffer_len(buf: &EventBuffer) -> (n: usize)
    ensures
        n == buffer_contents(*buf).len(),
{
    buf.channel.len()
}

/// The events that a sequence of pressed flags stands for.
pub open spec fn events_of(flags: Seq<bool>) -> Seq<InputEvent> {
    Seq::new(flags.len(), |i: int| InputEvent { pressed: flags[i] })
}

/// A best-effort send on the model: append while there is room, else drop the
/// event.
pub open spec fn offer(q: Seq<InputEvent>, e: InputEvent) -> Seq<InputEvent> {
    if q.len() < QUEUE_CAPACITY {
        q.push(e)
    } else {
        q
    }
}

/// Best-effort sends of `es` in order, with nothing consumed meanwhile.
pub open spec fn offer_all(q: Seq<InputEvent>, es: Seq<InputEvent>) -> Seq<InputEvent>
    decreases es.len(),
{
    if es.len() == 0 {
        q
    } else {
        offer_all(offer(q, es.first()), es.drop_first())
    }
}

/// Bounded single-producer, single-consumer queue of input events.
pub struct EventQueue {
    buffer: EventBuffer,
}

impl View for EventQueue {
    type V = Seq<InputEvent>;

    /// The unconsumed events, oldest first.
    closed spec fn view(&self) -> Seq<InputEvent> {
        events_of(buffer_contents(self.buffer))
    }
}

impl EventQueue {
    /// The queue never buffers more than its capacity.
    pub open spec fn wf(&self) -> bool {
        self@.len() <= QUEUE_CAPACITY
    }

    /// An empty queue.
    pub fn new() -> (q: EventQueue)
        ensures
            q.wf(),
            q@ == Seq::<InputEvent>::empty(),
    {
        let q = EventQueue { buffer: buffer_new() };
        assert(q@ =~= Seq::<InputEvent>::empty());
        q
    }

    /// The most events the queue buffers.
    pub fn capacity(&self) -> (n: usize)
        ensures
            n == QUEUE_CAPACITY,
    {
        QUEUE_CAPACITY
    }

    /// The number of unconsumed events.
    pub fn len(&self) -> (n: usize)
        ensures
            n == self@.len(),
    {
        buffer_len(&self.buffer)
    }

    /// Whether nothing is buffered.
    pub fn is_empty(&self) -> (empty: bool)
        ensures
            empty == (self@.len() == 0),
    {
        buffer_len(&self.buffer) == 0
    }

    /// Whether a send would be dropped.
    pub fn is_full(&self) -> (full: bool)
        ensures
            full == (self@.len() >= QUEUE_CAPACITY),
    {
        buffer_len(&self.buffer) >= QUEUE_CAPACITY
    }

    /// Non-blocking, best-effort send. Returns whether the event was queued;
    /// on a full queue the event is dropped and the queue is unchanged.
    pub fn try_send(&mut self, event: InputEvent) -> (sent: bool)
        requires
            old(self).wf(),
        ensures
            final(self).wf(),
            sent == (old(self)@.len() < QUEUE_CAPACITY),
            final(self)@ == offer(old(self)@, event),
    {
        let sent = buffer_try_send(&mut self.buffer, event.pressed);
        assert(self@ =~= offer(old(self)@, event));
        sent
    }

    /// Non-blocking receive of the oldest unconsumed event.
    pub fn try_receive(&mut self) -> (got: Option<InputEvent>)
        requires
            old(self).wf(),
        ensures
            final(self).wf(),
            old(self)@.len() == 0 ==> got is None && final(self)@ == old(self)@,
            old(self)@.len() > 0 ==> got == Some(old(self)@.first()) && final(self)@ == old(
                self,
            )@.drop_first(),
    {
        match buffer_try_receive(&mut self.buffer) {
            Some(pressed) => {
                assert(self@ =~= old(self)@.drop_first());
                Some(InputEvent { pressed })
            },
            None => None,
        }
    }
}

} // verus!
