use vstd::prelude::*;

use crate::bus::FanoutMsg;
use crate::envelope::is_wire;
use crate::json::{opt_str_view, JsonValue};
use crate::socket::Socket;

verus! {

/// Topic-addressed publishing helpers for embedding code: they compose
/// fanout records for an explicit topic rather than the connection's
/// current one.
pub struct Endpoint();

impl Endpoint {
    /// Composes the fanout record for `topic` that every subscriber,
    /// the publisher included, forwards.
    pub fn boardcast(socket: &Socket, topic: &str, event: &str, message: JsonValue) -> (r:
        FanoutMsg)
        ensures
            r.from is None,
            r.action@ == "boardcast"@,
            r.topic@ == topic@,
            is_wire(
                r.payload,
                opt_str_view(socket.join_ref),
                Option::None,
                Option::Some(topic@),
                event@,
                message,
            ),
    {
        socket.do_boardcast(None, Some(topic.to_owned()), "boardcast", event, message)
    }

    /// Composes the fanout record for `topic` that every subscriber but
    /// the publisher forwards.
    pub fn boardcast_from(socket: &Socket, topic: &str, event: &str, message: JsonValue) -> (r:
        FanoutMsg)
        ensures
            r.from == Some(socket.id),
            r.action@ == "boardcast_from"@,
            r.topic@ == topic@,
            is_wire(
                r.payload,
                opt_str_view(socket.join_ref),
                Option::None,
                Option::Some(topic@),
                event@,
                message,
            ),
    {
        socket.do_boardcast(Some(socket.id()), Some(topic.to_owned()), "boardcast_from", event, message)
    }
}

} // verus!
