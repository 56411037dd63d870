//! The point through which the events of both callbacks reach the
//! listeners.
//!
//! Every listener gets every event that is sent while it is attached, in
//! the order in which the events are sent. Sending never waits and never
//! fails: an event stays until each attached listener has read it, so a
//! listener that reads slowly holds events back for itself alone.

use crate::event::GlobalHotKeyEvent;
use vstd::pervasive::VecAdditionalExecFns;
use vstd::prelude::*;

verus! {

/// What waits for each listener, in the order in which the listeners
/// attached: the events sent since it attached that it has not read, oldest
/// first, or `None` for a listener that has detached.
pub type Listeners = Seq<Option<Seq<GlobalHotKeyEvent>>>;

/// What waits for the listeners once `event` is sent: the event is the
/// newest for every attached listener.
pub open spec fn after_send(listeners: Listeners, event: GlobalHotKeyEvent) -> Listeners {
    Seq::new(
        listeners.len(),
        |i: int|
            match listeners[i] {
                Some(waiting) => Some(waiting.push(event)),
                None => None,
            },
    )
}

/// What waits for the listeners once the events of `events` are sent, one
/// after the other.
pub open spec fn after_sends(listeners: Listeners, events: Seq<GlobalHotKeyEvent>) -> Listeners
    decreases events.len(),
{
    if events.len() == 0 {
        listeners
    } else {
        after_send(after_sends(listeners, events.drop_last()), events.last())
    }
}

/// The event that the listener `listener` reads next, if one waits for it.
pub open spec fn next_event(listeners: Listeners, listener: int) -> Option<GlobalHotKeyEvent> {
    if 0 <= listener < listeners.len() && listeners[listener] is Some
        && listeners[listener]->Some_0.len() > 0 {
        Some(listeners[listener]->Some_0[0])
    } else {
        None
    }
}

/// What waits for the listeners once `listener` has read its next event:
/// that event waits for it no longer; nothing changes for the others.
pub open spec fn after_recv(listeners: Listeners, listener: int) -> Listeners {
    if next_event(listeners, listener) is Some {
        listeners.update(listener, Some(listeners[listener]->Some_0.drop_first()))
    } else {
        listeners
    }
}

/// What waits for the listeners once `listener` has detached.
pub open spec fn after_detach(listeners: Listeners, listener: int) -> Listeners {
    if 0 <= listener < listeners.len() {
        listeners.update(listener, None)
    } else {
        listeners
    }
}

/// The events that wait for the listeners.
pub struct EventChannel {
    /// The events that a listener may still read, oldest first.
    log: Vec<GlobalHotKeyEvent>,
    /// Of each listener, how many events of `log` it has read; `None` for a
    /// listener that has detached.
    read: Vec<Option<usize>>,
}

/// What waits for a listener that has read `read` events of `log`.
spec fn waiting(log: Seq<GlobalHotKeyEvent>, read: Option<usize>) -> Option<
    Seq<GlobalHotKeyEvent>,
> {
    match read {
        Some(n) => Some(log.skip(n as int)),
        None => None,
    }
}

impl View for EventChannel {
    type V = Listeners;

    closed spec fn view(&self) -> Listeners {
        Seq::new(self.read@.len(), |i: int| waiting(self.log@, self.read@[i]))
    }
}

impl EventChannel {
    #[verifier::type_invariant]
    closed spec fn inv(&self) -> bool {
        forall|i: int|
            0 <= i < self.read@.len() ==> ((#[trigger] self.read@[i]) matches Some(n) ==> n
                <= self.log@.len())
    }

    /// A channel that no listener is attached to.
    pub fn new() -> (channel: Self)
        ensures
            channel@ == Listeners::empty(),
    {
        let channel = EventChannel { log: Vec::new(), read: Vec::new() };
        assert(channel@ =~= Listeners::empty());
        channel
    }

    /// Attaches a listener. Returns the number that the listener reads and
    /// detaches by. Nothing waits for it yet: it gets the events that are
    /// sent from now on.
    pub fn attach(&mut self) -> (listener: usize)
        ensures
            listener == old(self)@.len(),
            final(self)@ == old(self)@.push(Some(Seq::empty())),
    {
        proof {
            use_type_invariant(&*self);
        }
        let mut taken = EventChannel::new();
        core::mem::swap(self, &mut taken);
        let EventChannel { log, mut read } = taken;
        let listener = read.len();
        read.push(Some(log.len()));
        assert(log@.skip(log@.len() as int) =~= Seq::<GlobalHotKeyEvent>::empty());
        *self = EventChannel { log, read };
        assert(self@ =~= old(self)@.push(Some(Seq::empty())));
        listener
    }

    /// Detaches the listener `listener`: nothing waits for it any more, and
    /// it gets no further event. A number that no listener has is passed
    /// over.
    pub fn detach(&mut self, listener: usize)
        ensures
            final(self)@ == after_detach(old(self)@, listener as int),
    {
        proof {
            use_type_invariant(&*self);
        }
        let mut taken = EventChannel::new();
        core::mem::swap(self, &mut taken);
        let EventChannel { log, mut read } = taken;
        if listener < read.len() {
            read.set(listener, None);
        }
        let (log, read) = Self::forget_what_all_have_read(log, read);
        *self = EventChannel { log, read };
        assert(self@ =~= after_detach(old(self)@, listener as int));
    }

    /// Sends `event` to every attached listener.
    pub fn send(&mut self, event: GlobalHotKeyEvent)
        ensures
            final(self)@ == after_send(old(self)@, event),
    {
        proof {
            use_type_invariant(&*self);
        }
        let mut taken = EventChannel::new();
        core::mem::swap(self, &mut taken);
        let EventChannel { mut log, read } = taken;
        let ghost before = log@;
        log.push(event);
        proof {
            assert forall|i: int| 0 <= i < read@.len() implies waiting(log@, read@[i]) == (match waiting(
                before,
                read@[i],
            ) {
                Some(w) => Some(w.push(event)),
                None => None,
            }) by {
                if let Some(n) = read@[i] {
                    assert(log@.skip(n as int) =~= before.skip(n as int).push(event));
                }
            }
        }
        let (log, read) = Self::forget_what_all_have_read(log, read);
        *self = EventChannel { log, read };
        assert(self@ =~= after_send(old(self)@, event));
    }

    /// Hands the listener `listener` the oldest event that waits for it, or
    /// `None` where none waits, the listener has detached, or no listener
    /// has the number.
    pub fn try_recv(&mut self, listener: usize) -> (event: Option<GlobalHotKeyEvent>)
        ensures
            event == next_event(old(self)@, listener as int),
            final(self)@ == after_recv(old(self)@, listener as int),
    {
        proof {
            use_type_invariant(&*self);
        }
        if listener >= self.read.len() {
            return None;
        }
        let n = match self.read[listener] {
            Some(n) => n,
            None => {
                return None;
            },
        };
        if n >= self.log.len() {
            return None;
        }
        let event = self.log[n];
        let mut taken = EventChannel::new();
        core::mem::swap(self, &mut taken);
        let EventChannel { log, mut read } = taken;
        read.set(listener, Some(n + 1));
        proof {
            assert(log@.skip(n as int)[0] == event);
            assert(log@.skip(n as int + 1) =~= log@.skip(n as int).drop_first());
        }
        let (log, read) = Self::forget_what_all_have_read(log, read);
        *self = EventChannel { log, read };
        assert(self@ =~= after_recv(old(self)@, listener as int));
        Some(event)
    }

    /// How many listeners ever attached.
    pub fn listeners(&self) -> (n: usize)
        ensures
            n == self@.len(),
    {
        self.read.len()
    }

    /// How many events wait for the listener `listener`; `None` where the
    /// listener has detached or no listener has the number.
    pub fn waiting_for(&self, listener: usize) -> (n: Option<usize>)
        ensures
            n == (if listener < self@.len() && self@[listener as int] is Some {
                Some(self@[listener as int]->Some_0.len() as usize)
            } else {
                None
            }),
    {
        proof {
            use_type_invariant(self);
        }
        if listener >= self.read.len() {
            return None;
        }
        match self.read[listener] {
            Some(n) => Some(self.log.len() - n),
            None => None,
        }
    }

    /// Drops from the front of `log` the events that every attached
    /// listener has read. What waits for each listener stays as it is.
    fn forget_what_all_have_read(log: Vec<GlobalHotKeyEvent>, read: Vec<Option<usize>>) -> (kept: (
        Vec<GlobalHotKeyEvent>,
        Vec<Option<usize>>,
    ))
        requires
            forall|i: int|
                0 <= i < read@.len() ==> ((#[trigger] read@[i]) matches Some(n) ==> n
                    <= log@.len()),
        ensures
            kept.1@.len() == read@.len(),
            forall|i: int|
                0 <= i < read@.len() ==> waiting(kept.0@, #[trigger] kept.1@[i]) == waiting(
                    log@,
                    read@[i],
                ),
            forall|i: int|
                0 <= i < kept.1@.len() ==> ((#[trigger] kept.1@[i]) matches Some(n) ==> n
                    <= kept.0@.len()),
    {
        let mut all_read: usize = log.len();
        let mut i: usize = 0;
        while i < read.len()
            invariant
                i <= read@.len(),
                all_read <= log@.len(),
                forall|j: int| 0 <= j < i ==> ((#[trigger] read@[j]) matches Some(n) ==> all_read <= n),
            decreases read@.len() - i,
        {
            if let Some(n) = read[i] {
                if n < all_read {
                    all_read = n;
                }
            }
            i = i + 1;
        }
        if all_read == 0 {
            return (log, read);
        }
        let ghost whole = log@;
        let mut log = log;
        let kept_log = log.split_off(all_read);
        let mut kept_read: Vec<Option<usize>> = Vec::new();
        let mut i: usize = 0;
        while i < read.len()
            invariant
                i <= read@.len(),
                kept_read@.len() == i,
                forall|j: int|
                    0 <= j < read@.len() ==> ((#[trigger] read@[j]) matches Some(n) ==> all_read
                        <= n),
                forall|j: int|
                    0 <= j < i ==> (#[trigger] kept_read@[j]) == (match read@[j] {
                        Some(n) => Some((n - all_read) as usize),
                        None => None,
                    }),
            decreases read@.len() - i,
        {
            let moved = match read[i] {
                Some(n) => Some(n - all_read),
                None => None,
            };
            kept_read.push(moved);
            i = i + 1;
        }
        proof {
            assert forall|i: int| 0 <= i < read@.len() implies waiting(
                kept_log@,
                #[trigger] kept_read@[i],
            ) == waiting(whole, read@[i]) by {
                if let Some(n) = read@[i] {
                    assert(kept_log@.skip(n - all_read) =~= whole.skip(n as int));
                }
            }
        }
        (kept_log, kept_read)
    }
}

/// Every attached listener gets the same events in the same order: what
/// waits for it after some events are sent is what waited for it before,
/// and then those events, in the order in which they were sent. Nothing is
/// sent to a listener that has detached.
pub proof fn lemma_listeners_get_the_same_events(
    listeners: Listeners,
    events: Seq<GlobalHotKeyEvent>,
    listener: int,
)
    requires
        0 <= listener < listeners.len(),
    ensures
        after_sends(listeners, events).len() == listeners.len(),
        after_sends(listeners, events)[listener] == (match listeners[listener] {
            Some(waiting) => Some(waiting + events),
            None => None,
        }),
    decreases events.len(),
{
    if events.len() > 0 {
        lemma_listeners_get_the_same_events(listeners, events.drop_last(), listener);
        if let Some(waiting) = listeners[listener] {
            assert((waiting + events.drop_last()).push(events.last()) =~= waiting + events);
        }
    } else {
        if let Some(waiting) = listeners[listener] {
            assert(waiting + events =~= waiting);
        }
    }
}

/// A listener reads the events in the order in which they were sent: what
/// it reads next is the oldest event that waits for it, and after it the
/// others wait as before.
pub proof fn lemma_listener_reads_in_order(
    listeners: Listeners,
    listener: int,
    other: int,
)
    requires
        0 <= listener < listeners.len(),
        0 <= other < listeners.len(),
        listeners[listener] matches Some(waiting) && waiting.len() > 0,
    ensures
        next_event(listeners, listener) == Some(listeners[listener]->Some_0[0]),
        after_recv(listeners, listener)[listener] == Some(
            listeners[listener]->Some_0.drop_first(),
        ),
        other != listener ==> after_recv(listeners, listener)[other] == listeners[other],
{
}

} // verus!
