//! The event channel: any number of producers, one consumer, first in, first out.
//!
//! `EventChannel` is the queue itself, with everything it promises stated exactly. An
//! `Emitter` and a `Receiver` are the two ends of one queue that threads share behind a
//! lock; every operation of theirs is one operation of the queue, made while the lock is
//! held, so what arrives is what the queue's own contracts say.

use crate::error::Error;
use crate::event::EventView;
use crate::event::OsxSystemTrayEvent;
use crate::handle::acquire;
use crate::handle::new_mutex;
use crate::handle::share;
use std::collections::VecDeque;
use std::sync::Arc;
use std::sync::Mutex;
use std::sync::MutexGuard;
use vstd::prelude::*;

verus! {

/// The mathematical value of a channel: what was sent and not yet received, oldest
/// first, and whether the consumer has terminated.
pub struct ChannelView {
    pub pending: Seq<EventView>,
    pub closed: bool,
}

/// The result of sending on a channel in state `c`.
pub open spec fn send_result(c: ChannelView) -> Result<(), Error> {
    if c.closed {
        Err(Error::ChannelClosed)
    } else {
        Ok(())
    }
}

/// The channel after `event` was sent on it: an open channel holds it behind all that
/// was sent before, a closed one is unchanged.
pub open spec fn sent(c: ChannelView, event: EventView) -> ChannelView {
    if c.closed {
        c
    } else {
        ChannelView { pending: c.pending.push(event), closed: false }
    }
}

/// The channel after each of `events` was sent on it, in order.
pub open spec fn sent_all(c: ChannelView, events: Seq<EventView>) -> ChannelView
    decreases events.len(),
{
    if events.len() == 0 {
        c
    } else {
        sent(sent_all(c, events.drop_last()), events.last())
    }
}

/// What the next receive hands out: the oldest pending event, if there is one.
pub open spec fn front(c: ChannelView) -> Option<EventView> {
    if c.pending.len() > 0 {
        Some(c.pending[0])
    } else {
        None
    }
}

/// The channel after one receive.
pub open spec fn received(c: ChannelView) -> ChannelView {
    if c.pending.len() > 0 {
        ChannelView { pending: c.pending.subrange(1, c.pending.len() as int), closed: c.closed }
    } else {
        c
    }
}

/// The channel after `n` receives.
pub open spec fn received_times(c: ChannelView, n: nat) -> ChannelView
    decreases n,
{
    if n == 0 {
        c
    } else {
        received(received_times(c, (n - 1) as nat))
    }
}

/// Whatever the producers send on an open channel, in whatever order their sends
/// arrive, the channel then holds exactly that behind what it held before: every event
/// once, none lost, in the order of arrival. The channel stays open.
pub proof fn lemma_sends_are_kept_in_order(c: ChannelView, events: Seq<EventView>)
    requires
        !c.closed,
    ensures
        sent_all(c, events) == (ChannelView { pending: c.pending + events, closed: false }),
    decreases events.len(),
{
    if events.len() == 0 {
        assert(c.pending + events =~= c.pending);
    } else {
        lemma_sends_are_kept_in_order(c, events.drop_last());
        assert((c.pending + events.drop_last()).push(events.last()) =~= c.pending + events);
    }
}

/// A closed channel takes nothing: every send on it fails with `ChannelClosed`, and
/// after any number of sends it is what it was.
pub proof fn lemma_closed_channel_refuses(c: ChannelView, events: Seq<EventView>)
    requires
        c.closed,
    ensures
        send_result(c) == Err::<(), Error>(Error::ChannelClosed),
        sent_all(c, events) == c,
    decreases events.len(),
{
    if events.len() > 0 {
        lemma_closed_channel_refuses(c, events.drop_last());
    }
}

/// The consumer observes what is pending exactly once each and oldest first: the
/// receive that follows `i` earlier ones hands out the event at position `i`, the
/// events behind it are still pending, and once as many receives were made as events
/// were pending, nothing is left.
pub proof fn lemma_receives_follow_the_queue(c: ChannelView, i: nat)
    requires
        i <= c.pending.len(),
    ensures
        received_times(c, i) == (ChannelView {
            pending: c.pending.subrange(i as int, c.pending.len() as int),
            closed: c.closed,
        }),
        i < c.pending.len() ==> front(received_times(c, i)) == Some(c.pending[i as int]),
        i == c.pending.len() ==> front(received_times(c, i)) == None::<EventView>,
    decreases i,
{
    if i == 0 {
        assert(c.pending.subrange(0, c.pending.len() as int) =~= c.pending);
    } else {
        lemma_receives_follow_the_queue(c, (i - 1) as nat);
        let before = received_times(c, (i - 1) as nat);
        assert(before.pending.subrange(1, before.pending.len() as int) =~= c.pending.subrange(
            i as int,
            c.pending.len() as int,
        ));
    }
}

/// The view of an event that may be absent.
pub open spec fn event_view(event: Option<OsxSystemTrayEvent>) -> Option<EventView> {
    match event {
        Some(e) => Some(e@),
        None => None,
    }
}

/// A first-in, first-out queue of events that can be closed.
#[derive(Debug)]
pub struct EventChannel {
    pending: VecDeque<OsxSystemTrayEvent>,
    closed: bool,
}

impl View for EventChannel {
    type V = ChannelView;

    closed spec fn view(&self) -> ChannelView {
        ChannelView {
            pending: self.pending@.map_values(|e: OsxSystemTrayEvent| e@),
            closed: self.closed,
        }
    }
}

impl EventChannel {
    /// An open channel with nothing pending.
    pub fn new() -> (c: EventChannel)
        ensures
            c@.pending == Seq::<EventView>::empty(),
            !c@.closed,
    {
        let c = EventChannel { pending: VecDeque::new(), closed: false };
        assert(c@.pending =~= Seq::<EventView>::empty());
        c
    }

    /// Appends `event` behind everything that is pending. Fails with
    /// `Error::ChannelClosed`, and changes nothing, exactly when the channel is closed.
    pub fn send(&mut self, event: OsxSystemTrayEvent) -> (r: Result<(), Error>)
        ensures
            r == send_result(old(self)@),
            final(self)@ == sent(old(self)@, event@),
    {
        if self.closed {
            Err(Error::ChannelClosed)
        } else {
            self.pending.push_back(event);
            assert(self@.pending =~= old(self)@.pending.push(event@));
            Ok(())
        }
    }

    /// Takes the oldest pending event out of the channel, if there is one.
    pub fn recv(&mut self) -> (r: Option<OsxSystemTrayEvent>)
        ensures
            event_view(r) == front(old(self)@),
            final(self)@ == received(old(self)@),
    {
        let r = self.pending.pop_front();
        proof {
            if r.is_some() {
                assert(self@.pending =~= old(self)@.pending.subrange(
                    1,
                    old(self)@.pending.len() as int,
                ));
            }
        }
        r
    }

    /// Closes the channel: from now on every send fails. What is pending stays.
    pub fn close(&mut self)
        ensures
            final(self)@ == (ChannelView { pending: old(self)@.pending, closed: true }),
    {
        self.closed = true;
    }

    /// Whether the channel is closed.
    pub fn is_closed(&self) -> (b: bool)
        ensures
            b == self@.closed,
    {
        self.closed
    }

    /// How many events are pending.
    pub fn len(&self) -> (n: usize)
        ensures
            n == self@.pending.len(),
    {
        self.pending.len()
    }
}

/// Trusted: `DerefMut` of `MutexGuard`. The reference that comes back is to the value
/// that the held mutex protects. Nothing is claimed of what that value is: another
/// thread may have changed it since this one last saw it.
#[verifier::external_body]
fn guarded<'a, 'b>(guard: &'a mut MutexGuard<'b, EventChannel>) -> (c: &'a mut EventChannel) {
    &mut **guard
}

/// The producers' end of a shared channel. Clone it to give each producer its own.
#[derive(Debug)]
pub struct Emitter {
    shared: Arc<Mutex<EventChannel>>,
}

/// The consumer's end of a shared channel.
#[derive(Debug)]
pub struct Receiver {
    shared: Arc<Mutex<EventChannel>>,
}

/// A new shared channel, open and empty, as its two ends.
pub fn channel() -> (ends: (Emitter, Receiver))
    ensures
        ends.0.feeds(&ends.1),
{
    let shared = Arc::new(new_mutex(EventChannel::new()));
    let emitter = Emitter { shared: share(&shared) };
    (emitter, Receiver { shared })
}

impl Emitter {
    /// Whether what this end sends is what `receiver` receives.
    pub closed spec fn feeds(&self, receiver: &Receiver) -> bool {
        self.shared == receiver.shared
    }

    /// Sends `event` to the consumer, behind everything sent before it and not yet
    /// received. Does not wait for the consumer.
    ///
    /// The send is `EventChannel::send` on the shared queue, made while the queue's lock
    /// is held. It fails, with `Error::ChannelClosed`, only where the consumer has closed
    /// the queue or a holder of the queue's lock ended abnormally.
    ///
    /// Whether the queue is closed at the moment of the send is decided by the other
    /// threads that hold an end of it, so the contract says only what holds either way:
    /// no other error comes back. What the send does to the queue that the lock hands
    /// out, and when it succeeds, is the contract of `EventChannel::send`.
    pub fn send(&self, event: OsxSystemTrayEvent) -> (r: Result<(), Error>)
        ensures
            r matches Err(e) ==> e == Error::ChannelClosed,
    {
        match acquire(&self.shared) {
            Some(mut held) => {
                let queue = guarded(&mut held);
                queue.send(event)
            },
            None => Err(Error::ChannelClosed),
        }
    }
}

impl Clone for Emitter {
    /// Another producer's end of the same channel.
    fn clone(&self) -> (e: Emitter)
        ensures
            forall|receiver: Receiver| self.feeds(&receiver) ==> e.feeds(&receiver),
    {
        Emitter { shared: share(&self.shared) }
    }
}

impl Receiver {
    /// Takes the oldest pending event out of the shared queue, if there is one, without
    /// waiting for a producer. It is `EventChannel::recv` made while the queue's lock is
    /// held; where a holder of that lock ended abnormally, nothing is received.
    ///
    /// What is pending at the moment of the call is decided by the producers, so
    /// nothing holds of every result and the contract promises nothing. Which event
    /// comes out of the queue that the lock hands out is the contract of
    /// `EventChannel::recv`.
    pub fn try_recv(&self) -> (r: Option<OsxSystemTrayEvent>) {
        match acquire(&self.shared) {
            Some(mut held) => {
                let queue = guarded(&mut held);
                queue.recv()
            },
            None => None,
        }
    }

    /// Closes the shared queue: every later send on any `Emitter` of it fails.
    pub fn close(&self) {
        match acquire(&self.shared) {
            Some(mut held) => {
                let queue = guarded(&mut held);
                queue.close();
            },
            None => {},
        }
    }
}

} // verus!
