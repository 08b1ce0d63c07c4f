use vstd::prelude::*;

use crate::channel::UserChannel;
use crate::socket::Socket;
use crate::strmap::StrMap;

verus! {

/// The top-level router: the topic → channel table and the registry of
/// pre-upgrade handshake handlers.
pub struct UserSocket {
    pub channels: StrMap<UserChannel>,
    pub handles: StrMap<usize>,
}

impl UserSocket {
    /// A router with no channels and no handshake handlers.
    pub fn new() -> (r: UserSocket)
        ensures
            r.channels@ == Map::<Seq<char>, UserChannel>::empty(),
            r.handles@ == Map::<Seq<char>, usize>::empty(),
    {
        UserSocket { channels: StrMap::new(), handles: StrMap::new() }
    }

    /// Indexes `channel` under its topic; the last registration for a
    /// topic wins.
    pub fn channel(&mut self, channel: UserChannel)
        ensures
            final(self).channels@ == old(self).channels@.insert(channel.topic@, channel),
            final(self).handles == old(self).handles,
    {
        let topic = channel.topic();
        self.channels.insert(topic, channel);
    }

    /// Registers `handler` for the top-level event `event`; the last
    /// registration wins.
    fn handle_event(&mut self, event: &str, handler: usize)
        ensures
            final(self).handles@ == old(self).handles@.insert(event@, handler),
            final(self).channels == old(self).channels,
    {
        self.handles.insert(event.to_owned(), handler);
    }

    /// Registers the handshake handler invoked before any transport
    /// upgrade is finalized (the top-level `"join"` event).
    pub fn join(&mut self, handler: usize)
        ensures
            final(self).handles@ == old(self).handles@.insert("join"@, handler),
            final(self).channels == old(self).channels,
    {
        self.handle_event("join", handler);
    }

    /// The top-level handler a pre-upgrade dispatch of `event` invokes,
    /// if one is registered.
    pub fn dispatch(&self, event: &str) -> (r: Option<usize>)
        ensures
            match r {
                Option::Some(h) => self.handles@.contains_key(event@) && h == self.handles@[event@],
                Option::None => !self.handles@.contains_key(event@),
            },
    {
        match self.handles.get(event) {
            Some(h) => Some(*h),
            None => None,
        }
    }

    /// The channel registered for `topic`, if any.
    pub fn channel_for(&self, topic: &str) -> (r: Option<&UserChannel>)
        ensures
            match r {
                Option::Some(c) => self.channels@.contains_key(topic@) && *c == self.channels@[topic@],
                Option::None => !self.channels@.contains_key(topic@),
            },
    {
        self.channels.get(topic)
    }

    /// The one-shot accept decision after the handshake handler ran:
    /// the transport upgrade proceeds exactly when the handler marked
    /// the connection joined.
    pub fn accept(&self, socket: &Socket) -> (r: bool)
        ensures
            r == socket.joined,
    {
        socket.is_joined()
    }
}

} // verus!
