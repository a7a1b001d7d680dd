//! The event channel: a FIFO queue carrying key events from the input side
//! to the audio side. The producer enqueues at the back, the consumer takes
//! from the front without blocking; events come out in the exact order they
//! went in.

use vstd::prelude::*;
use crate::tracker::KeyEvent;

verus! {

/// A FIFO queue of key events. The view is the sequence of queued events,
/// oldest first.
pub struct EventChannel {
    queue: Vec<KeyEvent>,
}

impl View for EventChannel {
    type V = Seq<KeyEvent>;

    closed spec fn view(&self) -> Seq<KeyEvent> {
        self.queue@
    }
}

impl EventChannel {
    /// An empty channel.
    pub fn new() -> (c: EventChannel)
        ensures
            c@ == Seq::<KeyEvent>::empty(),
    {
        EventChannel { queue: Vec::new() }
    }

    /// How many events are queued.
    pub fn len(&self) -> (n: usize)
        ensures
            n == self@.len(),
    {
        self.queue.len()
    }

    /// Enqueues one event at the back. Never fails and never drops an
    /// event: the new contents are exactly the old contents with `e`
    /// appended.
    pub fn send(&mut self, e: KeyEvent)
        ensures
            final(self)@ == old(self)@.push(e),
    {
        self.queue.push(e);
    }

    /// Takes the oldest queued event, or nothing when the channel is
    /// empty. Non-blocking: one call removes at most one event, always the
    /// front one, so repeated calls drain in FIFO order.
    pub fn try_take(&mut self) -> (r: Option<KeyEvent>)
        ensures
            old(self)@.len() == 0 ==> r is None && final(self)@ == old(self)@,
            old(self)@.len() > 0 ==> r == Some(old(self)@[0]) && final(self)@ == old(
                self,
            )@.subrange(1, old(self)@.len() as int),
    {
        if self.queue.len() == 0 {
            None
        } else {
            let e = self.queue.remove(0);
            proof {
                assert(self.queue@ =~= old(self).queue@.subrange(1, old(self).queue@.len() as int));
            }
            Some(e)
        }
    }
}

} // verus!
