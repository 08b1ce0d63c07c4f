use vstd::prelude::*;

use crate::json::JsonValue;

verus! {

/// The number of messages a bus keeps for a lagging reader when no
/// other capacity is chosen.
pub const DEFAULT_BUS_CAPACITY: usize = 1024;

/// One fanout record published on the broadcast bus: the topic it is
/// addressed to (empty when the publisher had none), the action
/// (`"boardcast"` or `"boardcast_from"`), the id of the originating
/// connection for `"boardcast_from"`, and the composed wire envelope
/// that subscribing connections forward.
#[derive(Debug, PartialEq, Eq)]
pub struct FanoutMsg {
    pub topic: String,
    pub action: String,
    pub from: Option<String>,
    pub payload: JsonValue,
}

/// A reader's position on a bus: the index of the next message it has
/// not yet received.
#[derive(Debug, Clone, Copy, PartialEq, Eq, Structural)]
pub struct BusCursor {
    pub pos: usize,
}

/// The process-local multi-producer multi-consumer fanout bus. Every
/// published message is appended to `history`; each subscriber reads
/// through its own cursor, in publish order. A reader that has fallen
/// more than `capacity` messages behind loses the oldest messages: the
/// bus is lossy for slow readers, never blocking for publishers.
pub struct BroadcastBus {
    pub capacity: usize,
    pub history: Vec<FanoutMsg>,
}

impl BroadcastBus {
    /// The position from which a reader at `pos` resumes: a reader more
    /// than `capacity` messages behind skips to the oldest kept message.
    pub open spec fn resume(&self, pos: int) -> int {
        if pos + self.capacity < self.history@.len() {
            self.history@.len() - self.capacity
        } else {
            pos
        }
    }

    /// An empty bus that keeps `capacity` messages for lagging readers.
    pub fn new(capacity: usize) -> (r: BroadcastBus)
        requires
            capacity >= 1,
        ensures
            r.capacity == capacity,
            r.history@.len() == 0,
    {
        BroadcastBus { capacity, history: Vec::new() }
    }

    /// Publishes one fanout record: it is appended after everything
    /// published before it, and publishing never blocks or fails.
    pub fn publish(&mut self, m: FanoutMsg)
        ensures
            final(self).history@ == old(self).history@.push(m),
            final(self).capacity == old(self).capacity,
    {
        self.history.push(m);
    }

    /// A new subscription, positioned after everything already
    /// published: a subscriber never sees a message from before it
    /// attached.
    pub fn subscribe(&self) -> (c: BusCursor)
        ensures
            c.pos == self.history@.len(),
    {
        BusCursor { pos: self.history.len() }
    }

    /// The next message for the reader at cursor `c`, advancing the
    /// cursor past it; `None` when the reader has seen everything
    /// published so far. A reader more than `capacity` messages behind
    /// resumes at the oldest kept message, dropping what came earlier.
    pub fn recv<'a>(&'a self, c: &mut BusCursor) -> (r: Option<&'a FanoutMsg>)
        requires
            old(c).pos <= self.history@.len(),
        ensures
            ({
                let start = self.resume(old(c).pos as int);
                match r {
                    Option::Some(m) => {
                        &&& start < self.history@.len()
                        &&& *m == self.history@[start]
                        &&& final(c).pos == start + 1
                    },
                    Option::None => {
                        &&& start == self.history@.len()
                        &&& *final(c) == *old(c)
                    },
                }
            }),
    {
        let len = self.history.len();
        let start = if self.capacity < len && c.pos < len - self.capacity {
            len - self.capacity
        } else {
            c.pos
        };
        if start < len {
            c.pos = start + 1;
            Some(&self.history[start])
        } else {
            None
        }
    }
}

/// Law: the bus is lossless for a reader at most `capacity` messages
/// behind the newest publication: such a reader resumes exactly where
/// it stopped, so it receives every message published after its
/// subscription, in publish order.
pub proof fn lemma_no_loss_within_capacity(b: BroadcastBus, pos: int)
    requires
        0 <= pos,
        b.history@.len() - pos <= b.capacity,
    ensures
        b.resume(pos) == pos,
{
}

impl Default for BroadcastBus {
    /// An empty bus with the default capacity.
    fn default() -> (r: BroadcastBus)
        ensures
            r.capacity == DEFAULT_BUS_CAPACITY,
            r.history@.len() == 0,
    {
        BroadcastBus::new(DEFAULT_BUS_CAPACITY)
    }
}

} // verus!
