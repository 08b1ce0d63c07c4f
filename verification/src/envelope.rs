use vstd::prelude::*;

use crate::json::{is_nullable_str, json_opt_str, opt_str_json, slot_view, JsonValue};

verus! {

/// One message of the wire protocol: the ordered 5-tuple
/// `[joinRef, msgRef, topic, event, payload]`, with `joinRef`, `msgRef`
/// and `topic` nullable strings, `event` a string, and `payload` an
/// arbitrary JSON value.
#[derive(Debug, PartialEq, Eq)]
pub struct Envelope {
    pub join_ref: Option<String>,
    pub msg_ref: Option<String>,
    pub topic: Option<String>,
    pub event: String,
    pub payload: JsonValue,
}

/// Why a frame failed to decode as a wire envelope.
#[derive(Debug, Clone, Copy, PartialEq, Eq, Structural)]
pub enum EnvelopeError {
    /// The frame is not a JSON array.
    NotArray,
    /// The array does not have exactly five elements.
    WrongArity,
    /// One of the first three slots is neither null nor a string.
    RefNotString,
    /// The fourth slot (the event) is not a string.
    EventNotString,
}

/// True of a value with the shape of a wire envelope: a five-element
/// array whose first three slots are null or strings and whose fourth
/// slot is a string.
pub open spec fn wire_shape(v: JsonValue) -> bool {
    &&& v matches JsonValue::Arr(items)
    &&& items@.len() == 5
    &&& is_nullable_str(items@[0])
    &&& is_nullable_str(items@[1])
    &&& is_nullable_str(items@[2])
    &&& items@[3] is Str
}

/// The envelope held by a value of wire shape.
pub open spec fn envelope_of(v: JsonValue) -> Envelope
    recommends
        wire_shape(v),
{
    match v {
        JsonValue::Arr(items) => Envelope {
            join_ref: json_opt_str(items@[0]),
            msg_ref: json_opt_str(items@[1]),
            topic: json_opt_str(items@[2]),
            event: match items@[3] {
                JsonValue::Str(s) => s,
                _ => arbitrary(),
            },
            payload: items@[4],
        },
        _ => arbitrary(),
    }
}

/// The error that decoding a value without wire shape reports.
pub open spec fn shape_error(v: JsonValue) -> EnvelopeError
    recommends
        !wire_shape(v),
{
    match v {
        JsonValue::Arr(items) => if items@.len() != 5 {
            EnvelopeError::WrongArity
        } else if !(is_nullable_str(items@[0]) && is_nullable_str(items@[1]) && is_nullable_str(
            items@[2],
        )) {
            EnvelopeError::RefNotString
        } else {
            EnvelopeError::EventNotString
        },
        _ => EnvelopeError::NotArray,
    }
}

/// True when `v` is the encoding of the envelope `e`: the five slots of
/// `v` hold exactly the fields of `e`.
pub open spec fn encodes(v: JsonValue, e: Envelope) -> bool {
    &&& v matches JsonValue::Arr(items)
    &&& items@ =~= seq![
        opt_str_json(e.join_ref),
        opt_str_json(e.msg_ref),
        opt_str_json(e.topic),
        JsonValue::Str(e.event),
        e.payload,
    ]
}

/// True when `v` is a wire envelope whose nullable string slots and
/// event carry the given texts and whose payload is `payload`. This is
/// the shape of every outbound envelope the library composes.
pub open spec fn is_wire(
    v: JsonValue,
    join_ref: Option<Seq<char>>,
    msg_ref: Option<Seq<char>>,
    topic: Option<Seq<char>>,
    event: Seq<char>,
    payload: JsonValue,
) -> bool {
    &&& v matches JsonValue::Arr(items)
    &&& items@.len() == 5
    &&& is_nullable_str(items@[0]) && slot_view(items@[0]) == join_ref
    &&& is_nullable_str(items@[1]) && slot_view(items@[1]) == msg_ref
    &&& is_nullable_str(items@[2]) && slot_view(items@[2]) == topic
    &&& items@[3] matches JsonValue::Str(s) && s@ == event
    &&& items@[4] == payload
}

/// The payload slot of a wire envelope.
pub open spec fn wire_payload(v: JsonValue) -> JsonValue
    recommends
        wire_shape(v),
{
    match v {
        JsonValue::Arr(items) => items@[4],
        _ => arbitrary(),
    }
}

/// True of the payload of a `phx_reply` envelope: the two-field object
/// `{response, status}` whose status text is `status`.
pub open spec fn reply_payload_shape(p: JsonValue, status: Seq<char>) -> bool {
    &&& p matches JsonValue::Obj(fields)
    &&& fields@.len() == 2
    &&& fields@[0].0@ == "response"@
    &&& fields@[1].0@ == "status"@
    &&& fields@[1].1 matches JsonValue::Str(s) && s@ == status
}

/// The response carried by a `phx_reply` payload.
pub open spec fn reply_response(p: JsonValue) -> JsonValue
    recommends
        p is Obj,
{
    match p {
        JsonValue::Obj(fields) => fields@[0].1,
        _ => arbitrary(),
    }
}

/// The optional string as its wire slot: null or a string value.
pub fn opt_to_json(o: Option<String>) -> (r: JsonValue)
    ensures
        r == opt_str_json(o),
{
    match o {
        None => JsonValue::Null,
        Some(s) => JsonValue::Str(s),
    }
}

/// Encodes an envelope as its wire value, the five-element array.
pub fn encode_envelope(e: Envelope) -> (r: JsonValue)
    ensures
        encodes(r, e),
{
    let Envelope { join_ref, msg_ref, topic, event, payload } = e;
    let mut items: Vec<JsonValue> = Vec::new();
    items.push(opt_to_json(join_ref));
    items.push(opt_to_json(msg_ref));
    items.push(opt_to_json(topic));
    items.push(JsonValue::Str(event));
    items.push(payload);
    JsonValue::Arr(items)
}

/// The optional string held by a nullable slot, or the decode error.
fn json_to_opt(v: JsonValue) -> (r: Result<Option<String>, EnvelopeError>)
    ensures
        match r {
            Ok(o) => is_nullable_str(v) && o == json_opt_str(v),
            Err(err) => !is_nullable_str(v) && err == EnvelopeError::RefNotString,
        },
{
    match v {
        JsonValue::Null => Ok(None),
        JsonValue::Str(s) => Ok(Some(s)),
        _ => Err(EnvelopeError::RefNotString),
    }
}

/// Decodes a wire value into an envelope. Succeeds exactly on values of
/// wire shape and then returns the envelope those slots hold; otherwise
/// reports which part of the shape is wrong.
pub fn decode_envelope(v: JsonValue) -> (r: Result<Envelope, EnvelopeError>)
    ensures
        match r {
            Ok(e) => wire_shape(v) && e == envelope_of(v),
            Err(err) => !wire_shape(v) && err == shape_error(v),
        },
{
    match v {
        JsonValue::Arr(mut items) => {
            if items.len() != 5 {
                return Err(EnvelopeError::WrongArity);
            }
            let payload = items.pop().unwrap();
            let event_slot = items.pop().unwrap();
            let topic_slot = items.pop().unwrap();
            let msg_slot = items.pop().unwrap();
            let join_slot = items.pop().unwrap();
            let join_ref = match json_to_opt(join_slot) {
                Ok(o) => o,
                Err(e) => {
                    return Err(e);
                },
            };
            let msg_ref = match json_to_opt(msg_slot) {
                Ok(o) => o,
                Err(e) => {
                    return Err(e);
                },
            };
            let topic = match json_to_opt(topic_slot) {
                Ok(o) => o,
                Err(e) => {
                    return Err(e);
                },
            };
            let event = match event_slot {
                JsonValue::Str(s) => s,
                _ => {
                    return Err(EnvelopeError::EventNotString);
                },
            };
            Ok(Envelope { join_ref, msg_ref, topic, event, payload })
        },
        _ => Err(EnvelopeError::NotArray),
    }
}

/// Law: decoding gives back what was encoded. Any value that encodes an
/// envelope has wire shape and holds exactly that envelope, so
/// `decode_envelope` after `encode_envelope` reproduces the tuple.
pub proof fn lemma_envelope_round_trip(e: Envelope, v: JsonValue)
    requires
        encodes(v, e),
    ensures
        wire_shape(v),
        envelope_of(v) == e,
{
}

} // verus!
