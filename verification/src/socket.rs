use vstd::prelude::*;

use crate::bus::FanoutMsg;
use crate::envelope::{is_wire, reply_payload_shape, reply_response, wire_payload, EnvelopeError};
use crate::json::{
    clone_opt_str, empty_object, is_empty_object, is_nullable_str, json_opt_str, opt_str_view,
    str_eq, JsonValue,
};
use crate::strmap::StrMap;

verus! {

/// Relies on nanoid::format with the URL-safe alphabet: the id it
/// returns is a string of exactly 21 characters drawn from that
/// alphabet, freshly generated from a secure random source.
#[verifier::external_body]
fn generate_id() -> (r: String)
    ensures
        r@.len() == 21,
{
    nanoid::format(nanoid::rngs::default, &nanoid::alphabet::SAFE, 21)
}

/// The fanout topic text: the publisher's topic, or empty when it has
/// none.
pub open spec fn fanout_topic_text(topic: Option<String>) -> Seq<char> {
    match topic {
        Option::Some(t) => t@,
        Option::None => Seq::empty(),
    }
}

/// Per-connection state: identity, the lifecycle flag set by the
/// top-level handshake, the references of the last processed inbound
/// envelope (echoed back verbatim in replies), user scratch data, and
/// the set of topics the connection has joined.
pub struct Socket {
    pub id: String,
    pub joined: bool,
    pub topic: Option<String>,
    pub join_ref: Option<String>,
    pub msg_ref: Option<String>,
    pub assigns: StrMap<JsonValue>,
    pub channels: Vec<String>,
}

impl Socket {
    /// Membership: true when this connection has joined topic `t`.
    pub open spec fn has_channel(&self, t: Seq<char>) -> bool {
        exists|i: int| 0 <= i < self.channels@.len() && self.channels@[i]@ == t
    }

    /// Each joined topic is listed once.
    pub open spec fn channels_unique(&self) -> bool {
        forall|i: int, j: int|
            0 <= i < j < self.channels@.len() ==> self.channels@[i]@ != self.channels@[j]@
    }

    /// A fresh connection with a caller-chosen id: not yet joined, no
    /// refs, no scratch data, no memberships.
    pub fn with_id(id: String) -> (r: Socket)
        ensures
            r.id == id,
            r.joined == false,
            r.topic is None,
            r.join_ref is None,
            r.msg_ref is None,
            r.assigns@ == Map::<Seq<char>, JsonValue>::empty(),
            r.channels@.len() == 0,
            r.channels_unique(),
    {
        Socket {
            id,
            joined: false,
            topic: None,
            join_ref: None,
            msg_ref: None,
            assigns: StrMap::new(),
            channels: Vec::new(),
        }
    }

    /// This connection's globally unique id.
    pub fn id(&self) -> (r: String)
        ensures
            r == self.id,
    {
        self.id.clone()
    }

    /// Upserts `value` under `key` in the scratch data; no failure mode.
    pub fn assign(&mut self, key: &str, value: JsonValue)
        ensures
            final(self).assigns@ == old(self).assigns@.insert(key@, value),
            *final(self) == (Socket { assigns: final(self).assigns, ..*old(self) }),
    {
        self.assigns.insert(key.to_owned(), value);
    }

    /// The scratch data handlers have assigned.
    pub fn assigns(&self) -> (r: &StrMap<JsonValue>)
        ensures
            *r == self.assigns,
    {
        &self.assigns
    }

    /// Marks the connection as accepted by the top-level handshake;
    /// idempotent.
    pub fn joined(&mut self)
        ensures
            *final(self) == (Socket { joined: true, ..*old(self) }),
    {
        self.joined = true;
    }

    /// True once at least one top-level handshake succeeded.
    pub fn is_joined(&self) -> (r: bool)
        ensures
            r == self.joined,
    {
        self.joined
    }

    /// The topic of the last processed inbound envelope.
    pub fn topic(&self) -> (r: Option<String>)
        ensures
            r == self.topic,
    {
        clone_opt_str(&self.topic)
    }

    /// True when this connection has joined `topic`.
    pub fn contains_channel(&self, topic: &str) -> (r: bool)
        ensures
            r == self.has_channel(topic@),
    {
        let mut i: usize = 0;
        while i < self.channels.len()
            invariant
                i <= self.channels@.len(),
                forall|j: int| 0 <= j < i ==> self.channels@[j]@ != topic@,
            decreases self.channels@.len() - i,
        {
            if str_eq(self.channels[i].as_str(), topic) {
                proof {
                    assert(self.channels@[i as int]@ == topic@);
                }
                return true;
            }
            i += 1;
        }
        false
    }

    /// Adds `topic` to the membership set; everything else is kept.
    pub fn join_channel(&mut self, topic: &str)
        requires
            old(self).channels_unique(),
        ensures
            final(self).channels_unique(),
            forall|t: Seq<char>|
                final(self).has_channel(t) <==> (old(self).has_channel(t) || t == topic@),
            *final(self) == (Socket { channels: final(self).channels, ..*old(self) }),
    {
        let present = self.contains_channel(topic);
        if !present {
            let ghost prior = self.channels@;
            self.channels.push(topic.to_owned());
            proof {
                assert forall|t: Seq<char>| self.has_channel(t) implies (exists|i: int|
                    0 <= i < prior.len() && prior[i]@ == t) || t == topic@ by {
                    let i = choose|i: int|
                        0 <= i < self.channels@.len() && self.channels@[i]@ == t;
                    if i < prior.len() {
                        assert(prior[i]@ == t);
                    }
                }
                assert(self.channels@[prior.len() as int]@ == topic@);
                assert forall|t: Seq<char>| (exists|i: int|
                    0 <= i < prior.len() && prior[i]@ == t) || t == topic@ implies self.has_channel(
                    t,
                ) by {
                    if exists|i: int| 0 <= i < prior.len() && prior[i]@ == t {
                        let i = choose|i: int| 0 <= i < prior.len() && prior[i]@ == t;
                        assert(self.channels@[i]@ == t);
                    }
                }
            }
        }
    }

    /// Removes `topic` from the membership set; a leave without a prior
    /// join leaves the membership unchanged. Everything else is kept.
    pub fn leave_channel(&mut self, topic: &str)
        requires
            old(self).channels_unique(),
        ensures
            final(self).channels_unique(),
            forall|t: Seq<char>|
                final(self).has_channel(t) <==> (old(self).has_channel(t) && t != topic@),
            *final(self) == (Socket { channels: final(self).channels, ..*old(self) }),
    {
        let mut i: usize = 0;
        while i < self.channels.len()
            invariant
                i <= self.channels@.len(),
                forall|j: int| 0 <= j < i ==> self.channels@[j]@ != topic@,
                self.channels_unique(),
                *self == (Socket { channels: self.channels, ..*old(self) }),
                self.channels == old(self).channels,
            decreases self.channels@.len() - i,
        {
            if str_eq(self.channels[i].as_str(), topic) {
                let ghost prior = self.channels@;
                self.channels.remove(i);
                proof {
                    assert(prior[i as int]@ == topic@);
                    assert forall|t: Seq<char>| self.has_channel(t) implies (old(
                        self,
                    ).has_channel(t) && t != topic@) by {
                        let j = choose|j: int|
                            0 <= j < self.channels@.len() && self.channels@[j]@ == t;
                        if j < i {
                            assert(prior[j]@ == t);
                        } else {
                            assert(prior[j + 1]@ == t);
                        }
                    }
                    assert forall|t: Seq<char>| (old(self).has_channel(t) && t != topic@)
                        implies self.has_channel(t) by {
                        let j = choose|j: int| 0 <= j < prior.len() && prior[j]@ == t;
                        if j < i {
                            assert(self.channels@[j]@ == t);
                        } else {
                            assert(j != i);
                            assert(self.channels@[j - 1]@ == t);
                        }
                    }
                    assert forall|a: int, b: int|
                        0 <= a < b < self.channels@.len() implies self.channels@[a]@
                        != self.channels@[b]@ by {
                        if b < i {
                        } else if a < i {
                            assert(self.channels@[b]@ == prior[b + 1]@);
                        } else {
                            assert(self.channels@[a]@ == prior[a + 1]@);
                            assert(self.channels@[b]@ == prior[b + 1]@);
                        }
                    }
                }
                return ;
            }
            i += 1;
        }
    }

    /// Stores the given refs, as extracted from a decoded envelope.
    pub fn set_refs(
        &mut self,
        join_ref: Option<String>,
        msg_ref: Option<String>,
        topic: Option<String>,
    )
        ensures
            *final(self) == (Socket {
                join_ref: join_ref,
                msg_ref: msg_ref,
                topic: topic,
                ..*old(self)
            }),
    {
        self.join_ref = join_ref;
        self.msg_ref = msg_ref;
        self.topic = topic;
    }

    /// Stores the `joinRef`, `msgRef` and `topic` slots of an inbound
    /// frame, each independently nullable. A frame that is not a
    /// five-element array, or whose first three slots are not each null
    /// or a string, is reported as a decode error and changes nothing.
    pub fn from_message(&mut self, message: &JsonValue) -> (r: Result<(), EnvelopeError>)
        ensures
            match r {
                Ok(u) => {
                    &&& refs_shape(*message)
                    &&& message matches JsonValue::Arr(items)
                        && *final(self) == (Socket {
                        join_ref: json_opt_str(items@[0]),
                        msg_ref: json_opt_str(items@[1]),
                        topic: json_opt_str(items@[2]),
                        ..*old(self)
                    })
                },
                Err(err) => {
                    &&& !refs_shape(*message)
                    &&& err == refs_error(*message)
                    &&& *final(self) == *old(self)
                },
            },
    {
        match message {
            JsonValue::Arr(items) => {
                if items.len() != 5 {
                    return Err(EnvelopeError::WrongArity);
                }
                let join_ref = match slot_to_opt(&items[0]) {
                    Ok(o) => o,
                    Err(e) => {
                        return Err(e);
                    },
                };
                let msg_ref = match slot_to_opt(&items[1]) {
                    Ok(o) => o,
                    Err(e) => {
                        return Err(e);
                    },
                };
                let topic = match slot_to_opt(&items[2]) {
                    Ok(o) => o,
                    Err(e) => {
                        return Err(e);
                    },
                };
                self.join_ref = join_ref;
                self.msg_ref = msg_ref;
                self.topic = topic;
                Ok(())
            },
            _ => Err(EnvelopeError::NotArray),
        }
    }

    /// Composes the outbound wire envelope
    /// `[joinRef, msgRef, topic, event, payload]`.
    pub fn reply_message(
        join_ref: Option<String>,
        msg_ref: Option<String>,
        topic: Option<String>,
        event: &str,
        message: JsonValue,
    ) -> (r: JsonValue)
        ensures
            is_wire(
                r,
                opt_str_view(join_ref),
                opt_str_view(msg_ref),
                opt_str_view(topic),
                event@,
                message,
            ),
    {
        let mut items: Vec<JsonValue> = Vec::new();
        items.push(crate::envelope::opt_to_json(join_ref));
        items.push(crate::envelope::opt_to_json(msg_ref));
        items.push(crate::envelope::opt_to_json(topic));
        items.push(JsonValue::Str(event.to_owned()));
        items.push(message);
        JsonValue::Arr(items)
    }

    /// Composes the push envelope for `event`, echoing this
    /// connection's stored refs and topic around `message`.
    pub fn push(&self, event: &str, message: JsonValue) -> (r: JsonValue)
        ensures
            is_wire(
                r,
                opt_str_view(self.join_ref),
                opt_str_view(self.msg_ref),
                opt_str_view(self.topic),
                event@,
                message,
            ),
    {
        Socket::reply_message(
            clone_opt_str(&self.join_ref),
            clone_opt_str(&self.msg_ref),
            clone_opt_str(&self.topic),
            event,
            message,
        )
    }

    /// Composes the `phx_reply` envelope acknowledging the current
    /// request: it echoes the stored refs and topic, and its payload is
    /// `{response, status}` where a null `response` is replaced by an
    /// empty object.
    pub fn reply(&self, status: &str, response: JsonValue) -> (r: JsonValue)
        ensures
            ({
                let p = wire_payload(r);
                &&& is_wire(
                    r,
                    opt_str_view(self.join_ref),
                    opt_str_view(self.msg_ref),
                    opt_str_view(self.topic),
                    "phx_reply"@,
                    p,
                )
                &&& reply_payload_shape(p, status@)
                &&& !(response is Null) ==> reply_response(p) == response
                &&& response is Null ==> is_empty_object(reply_response(p))
            }),
    {
        let resp = if response.is_null() {
            empty_object()
        } else {
            response
        };
        let mut fields: Vec<(String, JsonValue)> = Vec::new();
        fields.push(("response".to_owned(), resp));
        fields.push(("status".to_owned(), JsonValue::Str(status.to_owned())));
        self.push("phx_reply", JsonValue::Obj(fields))
    }

    /// Composes the fanout record published on the bus: the wire
    /// envelope for `event` (echoing this connection's joinRef, with no
    /// msgRef) wrapped with the fanout topic, action and origin.
    pub fn do_boardcast(
        &self,
        from: Option<String>,
        topic: Option<String>,
        action: &str,
        event: &str,
        message: JsonValue,
    ) -> (r: FanoutMsg)
        ensures
            r.topic@ == fanout_topic_text(topic),
            r.action@ == action@,
            r.from == from,
            is_wire(
                r.payload,
                opt_str_view(self.join_ref),
                Option::None,
                opt_str_view(topic),
                event@,
                message,
            ),
    {
        let wire_topic = clone_opt_str(&topic);
        let payload = Socket::reply_message(
            clone_opt_str(&self.join_ref),
            None,
            wire_topic,
            event,
            message,
        );
        let topic_str = match topic {
            Some(t) => t,
            None => String::new(),
        };
        FanoutMsg { topic: topic_str, action: action.to_owned(), from, payload }
    }

    /// Composes a fanout record addressed to this connection's topic
    /// that every subscriber, the publisher included, forwards.
    pub fn boardcast(&self, event: &str, message: JsonValue) -> (r: FanoutMsg)
        ensures
            r.from is None,
            r.action@ == "boardcast"@,
            r.topic@ == fanout_topic_text(self.topic),
            is_wire(
                r.payload,
                opt_str_view(self.join_ref),
                Option::None,
                opt_str_view(self.topic),
                event@,
                message,
            ),
    {
        self.do_boardcast(None, self.topic(), "boardcast", event, message)
    }

    /// Composes a fanout record addressed to this connection's topic
    /// that every subscriber but this connection forwards.
    pub fn boardcast_from(&self, event: &str, message: JsonValue) -> (r: FanoutMsg)
        ensures
            r.from == Some(self.id),
            r.action@ == "boardcast_from"@,
            r.topic@ == fanout_topic_text(self.topic),
            is_wire(
                r.payload,
                opt_str_view(self.join_ref),
                Option::None,
                opt_str_view(self.topic),
                event@,
                message,
            ),
    {
        self.do_boardcast(Some(self.id()), self.topic(), "boardcast_from", event, message)
    }
}

impl Default for Socket {
    /// A fresh connection with a newly generated 21-character id.
    fn default() -> (r: Socket)
        ensures
            r.id@.len() == 21,
            r.joined == false,
            r.topic is None,
            r.join_ref is None,
            r.msg_ref is None,
            r.assigns@ == Map::<Seq<char>, JsonValue>::empty(),
            r.channels@.len() == 0,
            r.channels_unique(),
    {
        Socket::with_id(generate_id())
    }
}

/// Law: joining topic `topic` and then leaving it leaves the
/// membership set without `topic`, and every other membership as it
/// was. The two hypotheses are exactly what `join_channel` and
/// `leave_channel` ensure of the states they produce.
pub proof fn lemma_join_then_leave(s0: Socket, s1: Socket, s2: Socket, topic: Seq<char>)
    requires
        forall|t: Seq<char>| s1.has_channel(t) <==> (s0.has_channel(t) || t == topic),
        forall|t: Seq<char>| s2.has_channel(t) <==> (s1.has_channel(t) && t != topic),
    ensures
        !s2.has_channel(topic),
        forall|t: Seq<char>| t != topic ==> (s2.has_channel(t) <==> s0.has_channel(t)),
{
}

/// Law: a leave with no prior join is a no-op on membership. The
/// hypothesis on `s1` is what `leave_channel` ensures of the state it
/// produces.
pub proof fn lemma_leave_without_join(s0: Socket, s1: Socket, topic: Seq<char>)
    requires
        !s0.has_channel(topic),
        forall|t: Seq<char>| s1.has_channel(t) <==> (s0.has_channel(t) && t != topic),
    ensures
        forall|t: Seq<char>| s1.has_channel(t) <==> s0.has_channel(t),
{
}

/// True of a frame whose first three slots can be stored as refs: a
/// five-element array whose first three slots are each null or a
/// string.
pub open spec fn refs_shape(v: JsonValue) -> bool {
    &&& v matches JsonValue::Arr(items)
    &&& items@.len() == 5
    &&& is_nullable_str(items@[0])
    &&& is_nullable_str(items@[1])
    &&& is_nullable_str(items@[2])
}

/// The error that storing the refs of a malformed frame reports.
pub open spec fn refs_error(v: JsonValue) -> EnvelopeError
    recommends
        !refs_shape(v),
{
    match v {
        JsonValue::Arr(items) => if items@.len() != 5 {
            EnvelopeError::WrongArity
        } else {
            EnvelopeError::RefNotString
        },
        _ => EnvelopeError::NotArray,
    }
}

/// The optional string held by a nullable slot, cloned out of it.
fn slot_to_opt(v: &JsonValue) -> (r: Result<Option<String>, EnvelopeError>)
    ensures
        match r {
            Ok(o) => is_nullable_str(*v) && o == json_opt_str(*v),
            Err(err) => !is_nullable_str(*v) && err == EnvelopeError::RefNotString,
        },
{
    match v {
        JsonValue::Null => Ok(None),
        JsonValue::Str(s) => Ok(Some(s.clone())),
        _ => Err(EnvelopeError::RefNotString),
    }
}

} // verus!
