//! The event bus: a first-in first-out channel from the tools to the view
//! port. Events are passed by value.
use vstd::prelude::*;

verus! {

/// A channel of events. Senders append, the receiver takes from the front.
/// Once closed it accepts nothing more; what is pending can still be
/// received.
#[derive(Debug)]
pub struct EventBus<E> {
    queue: Vec<E>,
    closed: bool,
}

impl<E> EventBus<E> {
    /// The events sent and not yet received, oldest first.
    pub closed spec fn pending(&self) -> Seq<E> {
        self.queue@
    }

    /// Whether the channel was closed.
    pub closed spec fn is_closed(&self) -> bool {
        self.closed
    }

    /// An open channel without events.
    pub fn new() -> (r: EventBus<E>)
        ensures
            r.pending() == Seq::<E>::empty(),
            !r.is_closed(),
    {
        EventBus { queue: Vec::new(), closed: false }
    }

    /// The number of pending events.
    pub fn len(&self) -> (r: usize)
        ensures
            r == self.pending().len(),
    {
        self.queue.len()
    }

    /// Whether the channel was closed.
    pub fn closed(&self) -> (r: bool)
        ensures
            r == self.is_closed(),
    {
        self.closed
    }

    /// Sends `event`: it becomes the newest pending event. On a closed
    /// channel nothing changes and the event comes back.
    pub fn send(&mut self, event: E) -> (r: Result<(), E>)
        ensures
            final(self).is_closed() == old(self).is_closed(),
            r is Ok <==> !old(self).is_closed(),
            r is Ok ==> final(self).pending() == old(self).pending().push(event),
            r matches Err(back) ==> back == event && final(self).pending() == old(
                self,
            ).pending(),
    {
        if self.closed {
            Err(event)
        } else {
            self.queue.push(event);
            Ok(())
        }
    }

    /// Receives the oldest pending event, or `None` where there is none.
    pub fn recv(&mut self) -> (r: Option<E>)
        ensures
            final(self).is_closed() == old(self).is_closed(),
            r is Some <==> old(self).pending().len() > 0,
            r matches Some(event) ==> event == old(self).pending()[0] && final(self).pending()
                == old(self).pending().drop_first(),
            r is None ==> final(self).pending() == old(self).pending(),
    {
        if self.queue.len() == 0 {
            None
        } else {
            let event = self.queue.remove(0);
            Some(event)
        }
    }

    /// Closes the channel.
    pub fn close(&mut self)
        ensures
            final(self).is_closed(),
            final(self).pending() == old(self).pending(),
    {
        self.closed = true;
    }
}

} // verus!
