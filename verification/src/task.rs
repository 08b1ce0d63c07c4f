use vstd::prelude::*;

use crate::bus::FanoutMsg;
use crate::envelope::{
    decode_envelope, envelope_of, is_wire, reply_payload_shape, reply_response, shape_error,
    wire_payload, wire_shape, Envelope, EnvelopeError,
};
use crate::json::{clone_opt_str, is_empty_object, opt_str_view, str_eq, JsonValue};
use crate::socket::Socket;
use crate::user_socket::UserSocket;

verus! {

/// What the reader loop does with one inbound frame.
#[derive(Debug, PartialEq, Eq)]
pub enum ReaderAction {
    /// The frame is a heartbeat: this reply is sent back immediately,
    /// bypassing channel dispatch.
    Heartbeat(JsonValue),
    /// The frame is addressed to a registered channel: the handler, if
    /// one is registered there for `event`, runs with the payload, and
    /// the dispatch is then finished on that channel.
    Dispatch { topic: String, event: String, payload: JsonValue, handler: Option<usize> },
    /// The frame names no topic, or no channel is registered for it:
    /// the envelope is dropped.
    Ignore,
    /// The frame is malformed: the connection's lifecycle ends.
    Close(EnvelopeError),
}

/// The action the reader takes on `frame` under router `router`. The
/// action is determined by the frame and the router alone, so a
/// sequence of frames yields its actions in receipt order.
pub open spec fn action_for(router: UserSocket, frame: JsonValue, a: ReaderAction) -> bool {
    match a {
        ReaderAction::Close(err) => !wire_shape(frame) && err == shape_error(frame),
        ReaderAction::Heartbeat(v) => wire_shape(frame) && {
            let e = envelope_of(frame);
            &&& e.event@ == "heartbeat"@
            &&& is_wire(
                v,
                opt_str_view(e.join_ref),
                opt_str_view(e.msg_ref),
                opt_str_view(e.topic),
                "phx_reply"@,
                wire_payload(v),
            )
            &&& reply_payload_shape(wire_payload(v), "ok"@)
            &&& is_empty_object(reply_response(wire_payload(v)))
        },
        ReaderAction::Dispatch { topic, event, payload, handler } => wire_shape(frame) && {
            let e = envelope_of(frame);
            &&& e.event@ != "heartbeat"@
            &&& e.topic == Some(topic)
            &&& event == e.event
            &&& payload == e.payload
            &&& router.channels@.contains_key(topic@)
            &&& handler == (if router.channels@[topic@].handles@.contains_key(event@) {
                Some(router.channels@[topic@].handles@[event@])
            } else {
                None::<usize>
            })
        },
        ReaderAction::Ignore => wire_shape(frame) && {
            let e = envelope_of(frame);
            &&& e.event@ != "heartbeat"@
            &&& match e.topic {
                Option::Some(t) => !router.channels@.contains_key(t@),
                Option::None => true,
            }
        },
    }
}

/// One reader-loop step: decodes `frame`, stores its refs on the
/// connection, and decides what happens next. A heartbeat is answered
/// with the `phx_reply`/`ok` acknowledgement echoing the frame's refs,
/// whatever the router or membership state; a malformed frame closes
/// the connection and changes nothing.
pub fn reader_step(router: &UserSocket, socket: &mut Socket, frame: JsonValue) -> (r: ReaderAction)
    ensures
        action_for(*router, frame, r),
        r is Close ==> *final(socket) == *old(socket),
        !(r is Close) ==> ({
            let e = envelope_of(frame);
            *final(socket) == (Socket {
                join_ref: e.join_ref,
                msg_ref: e.msg_ref,
                topic: e.topic,
                ..*old(socket)
            })
        }),
{
    let env = match decode_envelope(frame) {
        Ok(e) => e,
        Err(err) => {
            return ReaderAction::Close(err);
        },
    };
    let Envelope { join_ref, msg_ref, topic, event, payload } = env;
    socket.set_refs(clone_opt_str(&join_ref), clone_opt_str(&msg_ref), clone_opt_str(&topic));
    if str_eq(event.as_str(), "heartbeat") {
        return ReaderAction::Heartbeat(socket.reply("ok", JsonValue::Null));
    }
    let t = match topic {
        Some(t) => t,
        None => {
            return ReaderAction::Ignore;
        },
    };
    match router.channel_for(t.as_str()) {
        Some(ch) => {
            let handler = ch.dispatch_lookup(event.as_str());
            ReaderAction::Dispatch { topic: t, event, payload, handler }
        },
        None => ReaderAction::Ignore,
    }
}

/// One connection's inbound pipeline: the frames are processed one at
/// a time, strictly in the order received, stopping at the first frame
/// that fails to decode. The i-th action answers the i-th frame, so
/// handler invocations occur in receipt order, never reordered or
/// interleaved.
pub fn process_frames(router: &UserSocket, socket: &mut Socket, frames: Vec<JsonValue>) -> (r: Vec<
    ReaderAction,
>)
    ensures
        r@.len() <= frames@.len(),
        forall|i: int| 0 <= i < r@.len() ==> action_for(*router, frames@[i], r@[i]),
        forall|i: int| 0 <= i < r@.len() - 1 ==> !(r@[i] is Close),
        r@.len() < frames@.len() ==> r@.len() >= 1 && r@[r@.len() - 1] is Close,
{
    let mut rest = frames;
    let ghost all = rest@;
    let mut actions: Vec<ReaderAction> = Vec::new();
    while rest.len() > 0
        invariant
            all == frames@,
            actions@.len() + rest@.len() == all.len(),
            rest@ == all.subrange(actions@.len() as int, all.len() as int),
            forall|i: int| 0 <= i < actions@.len() ==> action_for(*router, all[i], actions@[i]),
            forall|i: int| 0 <= i < actions@.len() ==> !(actions@[i] is Close),
        decreases rest@.len(),
    {
        let frame = rest.remove(0);
        proof {
            assert(frame == all[actions@.len() as int]);
        }
        let a = reader_step(router, socket, frame);
        let stop = matches!(a, ReaderAction::Close(_));
        actions.push(a);
        if stop {
            return actions;
        }
        proof {
            assert(rest@ =~= all.subrange(actions@.len() as int, all.len() as int));
        }
    }
    actions
}

/// True when the connection with id `id` forwards the fanout record
/// `m`: every `"boardcast"` is forwarded, and a `"boardcast_from"`
/// exactly when it originated on some other connection.
pub open spec fn forwards(id: Seq<char>, m: FanoutMsg) -> bool {
    ||| m.action@ == "boardcast"@
    ||| (m.action@ == "boardcast_from"@ && (m.from matches Some(f) && f@ != id))
}

/// One writer-loop step: whether this connection forwards the fanout
/// record it received from the bus, and the envelope it then sends.
pub fn writer_step<'a>(socket: &Socket, m: &'a FanoutMsg) -> (r: Option<&'a JsonValue>)
    requires
        m.action@ == "boardcast_from"@ ==> m.from is Some,
    ensures
        match r {
            Option::Some(p) => forwards(socket.id@, *m) && *p == m.payload,
            Option::None => !forwards(socket.id@, *m),
        },
{
    if str_eq(m.action.as_str(), "boardcast") {
        Some(&m.payload)
    } else if str_eq(m.action.as_str(), "boardcast_from") {
        match &m.from {
            Some(f) => {
                if str_eq(f.as_str(), socket.id.as_str()) {
                    None
                } else {
                    Some(&m.payload)
                }
            },
            None => None,
        }
    } else {
        None
    }
}

/// Law: a `"boardcast_from"` record is forwarded by every connection
/// other than its origin, and never by the origin itself.
pub proof fn lemma_fanout_exclusion(origin: Seq<char>, other: Seq<char>, m: FanoutMsg)
    requires
        m.action@ == "boardcast_from"@,
        m.from matches Some(f) && f@ == origin,
        other != origin,
    ensures
        !forwards(origin, m),
        forwards(other, m),
{
    broadcast use vstd::string::group_string_axioms;

    reveal_strlit("boardcast");
    reveal_strlit("boardcast_from");
    assert("boardcast"@.len() != "boardcast_from"@.len());
}

/// Law: a `"boardcast"` record is forwarded by every connection, its
/// publisher included.
pub proof fn lemma_boardcast_all(id: Seq<char>, m: FanoutMsg)
    requires
        m.action@ == "boardcast"@,
    ensures
        forwards(id, m),
{
}

} // verus!
