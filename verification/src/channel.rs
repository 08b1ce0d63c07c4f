use vstd::prelude::*;

use crate::envelope::{is_wire, reply_payload_shape, reply_response, wire_payload};
use crate::json::{is_empty_object, opt_str_view, str_eq, JsonValue};
use crate::socket::Socket;
use crate::strmap::StrMap;

verus! {

/// One server-side channel: the handler registry scoped to a single
/// topic. A handler is an opaque handle (an index into the embedding
/// application's handler table); registration for an event name is
/// last-writer-wins.
pub struct UserChannel {
    pub topic: String,
    pub handles: StrMap<usize>,
}

impl UserChannel {
    /// A channel for `topic` with no handlers registered.
    pub fn new(topic: &str) -> (r: UserChannel)
        ensures
            r.topic@ == topic@,
            r.handles@ == Map::<Seq<char>, usize>::empty(),
    {
        UserChannel { topic: topic.to_owned(), handles: StrMap::new() }
    }

    /// This channel's topic.
    pub fn topic(&self) -> (r: String)
        ensures
            r == self.topic,
    {
        self.topic.clone()
    }

    /// Registers `handler` for `event`; the last registration for a
    /// given event name wins.
    pub fn handle_event(&mut self, event: &str, handler: usize)
        ensures
            final(self).handles@ == old(self).handles@.insert(event@, handler),
            final(self).topic == old(self).topic,
    {
        self.handles.insert(event.to_owned(), handler);
    }

    /// Registers the `phx_join` handler.
    pub fn join(&mut self, handler: usize)
        ensures
            final(self).handles@ == old(self).handles@.insert("phx_join"@, handler),
            final(self).topic == old(self).topic,
    {
        self.handle_event("phx_join", handler);
    }

    /// Registers the `phx_leave` handler.
    pub fn leave(&mut self, handler: usize)
        ensures
            final(self).handles@ == old(self).handles@.insert("phx_leave"@, handler),
            final(self).topic == old(self).topic,
    {
        self.handle_event("phx_leave", handler);
    }

    /// The handler a dispatch of `event` invokes first, if one is
    /// registered.
    pub fn dispatch_lookup(&self, event: &str) -> (r: Option<usize>)
        ensures
            match r {
                Option::Some(h) => self.handles@.contains_key(event@) && h == self.handles@[event@],
                Option::None => !self.handles@.contains_key(event@),
            },
    {
        match self.handles.get(event) {
            Some(h) => Some(*h),
            None => None,
        }
    }

    /// Finishes a dispatch after the handler, if any, ran to
    /// completion: `phx_join` adds the envelope's topic to the
    /// connection's membership and `phx_leave` removes it, and either
    /// lifecycle event is acknowledged with an `"ok"` reply carrying an
    /// empty response; any other event changes nothing and yields no
    /// acknowledgement.
    ///
    /// This library updates membership and acknowledges lifecycle
    /// envelopes whether or not a user handler is registered for them.
    pub fn dispatch_complete(&self, event: &str, socket: &mut Socket) -> (r: Option<JsonValue>)
        requires
            old(socket).channels_unique(),
            old(socket).topic is Some,
        ensures
            final(socket).channels_unique(),
            *final(socket) == (Socket { channels: final(socket).channels, ..*old(socket) }),
            ({
                let tp = (old(socket).topic->0)@;
                &&& event@ == "phx_join"@ ==> (forall|t: Seq<char>|
                    final(socket).has_channel(t) <==> (old(socket).has_channel(t) || t == tp))
                &&& event@ == "phx_leave"@ ==> (forall|t: Seq<char>|
                    final(socket).has_channel(t) <==> (old(socket).has_channel(t) && t != tp))
                &&& (event@ != "phx_join"@ && event@ != "phx_leave"@) ==> *final(socket) == *old(
                    socket,
                )
            }),
            match r {
                Option::Some(v) => {
                    &&& (event@ == "phx_join"@ || event@ == "phx_leave"@)
                    &&& is_wire(
                        v,
                        opt_str_view(old(socket).join_ref),
                        opt_str_view(old(socket).msg_ref),
                        opt_str_view(old(socket).topic),
                        "phx_reply"@,
                        wire_payload(v),
                    )
                    &&& reply_payload_shape(wire_payload(v), "ok"@)
                    &&& is_empty_object(reply_response(wire_payload(v)))
                },
                Option::None => event@ != "phx_join"@ && event@ != "phx_leave"@,
            },
    {
        proof {
            broadcast use vstd::string::group_string_axioms;

            reveal_strlit("phx_join");
            reveal_strlit("phx_leave");
            assert("phx_join"@.len() != "phx_leave"@.len());
        }
        if str_eq(event, "phx_join") {
            let tp = socket.topic().unwrap();
            socket.join_channel(tp.as_str());
            Some(socket.reply("ok", JsonValue::Null))
        } else if str_eq(event, "phx_leave") {
            let tp = socket.topic().unwrap();
            socket.leave_channel(tp.as_str());
            Some(socket.reply("ok", JsonValue::Null))
        } else {
            None
        }
    }
}

} // verus!
