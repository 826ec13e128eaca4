use vstd::prelude::*;

verus! {

/// Inbound control message: a closed tagged union, decoded at a single
/// site. The wire form is a JSON object whose `"type"` field selects the
/// variant and whose remaining fields sit beside it.
#[derive(Clone, Copy, Debug, PartialEq, Eq, Structural)]
pub enum ClientMessage {
    SetLedStatus { status: bool },
    QueryLedStatus,
    Pong,
}

/// Outbound status message, encoded to the same tagged wire form.
/// `Ping` is defined but unused by the current handlers; it is reserved
/// for server-initiated keepalive.
#[derive(Clone, Copy, Debug, PartialEq, Eq, Structural)]
pub enum ServerMessage {
    LedStatus { status: bool },
    Ping,
}

/// String equality by contents.
pub(crate) fn str_eq(a: &str, b: &str) -> (r: bool)
    ensures
        r == (a@ == b@),
{
    let a_owned: String = a.to_owned();
    let b_owned: String = b.to_owned();
    a_owned == b_owned
}

/// The string value under `key` in the top-level JSON object that `text`
/// parses to, if `text` parses to an object holding a string there. The
/// result is a function of `text` and `key` alone.
pub uninterp spec fn json_str_field(text: Seq<char>, key: Seq<char>) -> Option<Seq<char>>;

/// The boolean value under `key` in the top-level JSON object that `text`
/// parses to, if `text` parses to an object holding a boolean there. The
/// result is a function of `text` and `key` alone.
pub uninterp spec fn json_bool_field(text: Seq<char>, key: Seq<char>) -> Option<bool>;

/// Relies on serde_json::from_str and serde_json::Value::Object's map
/// lookup: returns the string under `key` in the top-level JSON object of
/// `text`, and None where `text` is not a JSON object or holds no string
/// there.
#[verifier::external_body]
fn get_str_field(text: &str, key: &str) -> (r: Option<String>)
    ensures
        r is Some <==> json_str_field(text@, key@) is Some,
        r matches Some(s) ==> json_str_field(text@, key@) == Some(s@),
{
    match serde_json::from_str::<serde_json::Value>(text) {
        Ok(serde_json::Value::Object(map)) => match map.get(key) {
            Some(serde_json::Value::String(s)) => Some(s.clone()),
            _ => None,
        },
        _ => None,
    }
}

/// Relies on serde_json::from_str and serde_json::Value::Object's map
/// lookup: returns the boolean under `key` in the top-level JSON object of
/// `text`, and None where `text` is not a JSON object or holds no boolean
/// there.
#[verifier::external_body]
fn get_bool_field(text: &str, key: &str) -> (r: Option<bool>)
    ensures
        r == json_bool_field(text@, key@),
{
    match serde_json::from_str::<serde_json::Value>(text) {
        Ok(serde_json::Value::Object(map)) => match map.get(key) {
            Some(serde_json::Value::Bool(b)) => Some(*b),
            _ => None,
        },
        _ => None,
    }
}

/// What a piece of inbound frame text decodes to: the `"type"` field picks
/// the variant; `SetLedStatus` additionally needs a boolean `"status"`
/// field. Anything else is malformed and decodes to nothing.
pub open spec fn decoded_client_message(text: Seq<char>) -> Option<ClientMessage> {
    match json_str_field(text, "type"@) {
        Option::None => Option::None,
        Option::Some(tag) => if tag == "SetLedStatus"@ {
            match json_bool_field(text, "status"@) {
                Option::Some(b) => Option::Some(ClientMessage::SetLedStatus { status: b }),
                Option::None => Option::None,
            }
        } else if tag == "QueryLedStatus"@ {
            Option::Some(ClientMessage::QueryLedStatus)
        } else if tag == "Pong"@ {
            Option::Some(ClientMessage::Pong)
        } else {
            Option::None
        },
    }
}

/// Decodes one structured inbound frame; returns None exactly on malformed
/// payloads, which the session layer drops without closing the session.
pub fn decode_client_message(text: &str) -> (r: Option<ClientMessage>)
    ensures
        r == decoded_client_message(text@),
{
    match get_str_field(text, "type") {
        None => None,
        Some(tag) => {
            if tag == "SetLedStatus".to_owned() {
                match get_bool_field(text, "status") {
                    Some(b) => Some(ClientMessage::SetLedStatus { status: b }),
                    None => None,
                }
            } else if tag == "QueryLedStatus".to_owned() {
                Some(ClientMessage::QueryLedStatus)
            } else if tag == "Pong".to_owned() {
                Some(ClientMessage::Pong)
            } else {
                None
            }
        },
    }
}

/// The exact wire text of each outbound message.
pub open spec fn server_message_text(m: ServerMessage) -> Seq<char> {
    match m {
        ServerMessage::LedStatus { status } => if status {
            "{\"type\":\"LedStatus\",\"status\":true}"@
        } else {
            "{\"type\":\"LedStatus\",\"status\":false}"@
        },
        ServerMessage::Ping => "{\"type\":\"Ping\"}"@,
    }
}

/// Encodes one outbound message to its exact wire text.
pub fn encode_server_message(m: &ServerMessage) -> (r: String)
    ensures
        r@ == server_message_text(*m),
{
    match m {
        ServerMessage::LedStatus { status } => if *status {
            "{\"type\":\"LedStatus\",\"status\":true}".to_owned()
        } else {
            "{\"type\":\"LedStatus\",\"status\":false}".to_owned()
        },
        ServerMessage::Ping => "{\"type\":\"Ping\"}".to_owned(),
    }
}

} // verus!
