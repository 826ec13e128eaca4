use vstd::prelude::*;

use crate::led::Led;
use crate::messages::{
    decode_client_message, decoded_client_message, encode_server_message, server_message_text,
    str_eq, ClientMessage, ServerMessage,
};

verus! {

/// The one piece of state shared by all sessions: the desired-state flag
/// and the output driver, treated as a single resource. The embedding
/// program keeps the whole struct behind one lock and never holds that
/// lock across a suspension point, so every session step below runs as one
/// critical section.
pub struct SharedState {
    pub led_on: bool,
    pub led: Led,
}

impl SharedState {
    /// The flag and the driver agree: no reader can observe a flag value
    /// the pin does not (or no longer does) reflect.
    pub open spec fn wf(&self) -> bool {
        self.led_on == self.led.active
    }

    /// Wraps a freshly opened driver; the flag starts out de-energized,
    /// matching the driver's safe construction state.
    pub fn new(led: Led) -> (s: SharedState)
        requires
            !led.active,
        ensures
            s.wf(),
            !s.led_on,
    {
        SharedState { led_on: false, led }
    }
}

/// One step of the structured protocol: the state after the message and
/// the reply it produces, if any. `SetLedStatus` overwrites flag and
/// driver together and replies nothing; `QueryLedStatus` reads the flag
/// and changes nothing; `Pong` is purely informational.
pub open spec fn apply_message_spec(s: SharedState, m: ClientMessage) -> (SharedState, Option<
    ServerMessage,
>) {
    match m {
        ClientMessage::SetLedStatus { status } => (
            SharedState { led_on: status, led: Led { active: status } },
            Option::None,
        ),
        ClientMessage::QueryLedStatus => (
            s,
            Option::Some(ServerMessage::LedStatus { status: s.led_on }),
        ),
        ClientMessage::Pong => (s, Option::None),
    }
}

/// Applies one decoded message to the shared state under the caller's
/// critical section.
pub fn apply_message(state: &mut SharedState, msg: &ClientMessage) -> (reply: Option<
    ServerMessage,
>)
    requires
        old(state).wf(),
    ensures
        final(state).wf(),
        (*final(state), reply) == apply_message_spec(*old(state), *msg),
{
    match msg {
        ClientMessage::SetLedStatus { status } => {
            state.led_on = *status;
            if *status {
                state.led.on();
            } else {
                state.led.off();
            }
            None
        },
        ClientMessage::QueryLedStatus => Some(ServerMessage::LedStatus { status: state.led_on }),
        ClientMessage::Pong => None,
    }
}

/// The shared state after a whole sequence of decoded messages has been
/// applied, in the order in which their critical sections completed.
pub open spec fn apply_all_spec(s: SharedState, ms: Seq<ClientMessage>) -> SharedState
    decreases ms.len(),
{
    if ms.len() == 0 {
        s
    } else {
        apply_all_spec(apply_message_spec(s, ms[0]).0, ms.drop_first())
    }
}

/// The value carried by the last `SetLedStatus` in the sequence, if any.
pub open spec fn last_set_value(ms: Seq<ClientMessage>) -> Option<bool>
    decreases ms.len(),
{
    if ms.len() == 0 {
        Option::None
    } else {
        match last_set_value(ms.drop_first()) {
            Option::Some(v) => Option::Some(v),
            Option::None => match ms[0] {
                ClientMessage::SetLedStatus { status } => Option::Some(status),
                _ => Option::None,
            },
        }
    }
}

/// The last write wins. Sessions synchronize on one lock, so any
/// interleaving of completed commands is some sequence `ms`; for every
/// such sequence, the final flag and the driver's last invocation both
/// equal the value of the most recently completed `SetLedStatus`, and a
/// sequence with no write leaves the state exactly as it was. In
/// particular no interleaving tears the flag apart from the pin.
pub proof fn lemma_last_write_wins(s: SharedState, ms: Seq<ClientMessage>)
    requires
        s.wf(),
    ensures
        apply_all_spec(s, ms).wf(),
        match last_set_value(ms) {
            Option::Some(v) => apply_all_spec(s, ms).led_on == v && apply_all_spec(
                s,
                ms,
            ).led.active == v,
            Option::None => apply_all_spec(s, ms) == s,
        },
    decreases ms.len(),
{
    if ms.len() != 0 {
        let s1 = apply_message_spec(s, ms[0]).0;
        assert(s1.wf());
        lemma_last_write_wins(s1, ms.drop_first());
    }
}

/// A query right after a completed write, with no writer in between,
/// answers exactly the written value and changes nothing.
pub proof fn lemma_query_after_set(s: SharedState, v: bool)
    requires
        s.wf(),
    ensures
        ({
            let s1 = apply_message_spec(s, ClientMessage::SetLedStatus { status: v }).0;
            let q = apply_message_spec(s1, ClientMessage::QueryLedStatus);
            q.0 == s1 && q.1 == Option::Some(ServerMessage::LedStatus { status: v })
        }),
{
}

/// One full session step on one inbound text frame.
///
/// The literal `"ping"` is answered with the literal `"pong"` before any
/// structured decoding, whatever the protocol state; every other frame is
/// decoded, applied and answered per `apply_message_spec`; a malformed
/// frame leaves the state untouched and produces no reply. No frame ever
/// asks the caller to close the session: sessions end only on transport
/// events.
pub fn handle_text(state: &mut SharedState, text: &str) -> (reply: Option<String>)
    requires
        old(state).wf(),
    ensures
        final(state).wf(),
        text@ == "ping"@ ==> {
            &&& *final(state) == *old(state)
            &&& reply matches Some(p) && p@ == "pong"@
        },
        text@ != "ping"@ ==> match decoded_client_message(text@) {
            Option::Some(m) => {
                &&& *final(state) == apply_message_spec(*old(state), m).0
                &&& match apply_message_spec(*old(state), m).1 {
                    Option::Some(sm) => reply matches Some(p) && p@ == server_message_text(sm),
                    Option::None => reply is None,
                }
            },
            Option::None => *final(state) == *old(state) && reply is None,
        },
{
    if str_eq(text, "ping") {
        return Some("pong".to_owned());
    }
    match decode_client_message(text) {
        Some(m) => match apply_message(state, &m) {
            Some(sm) => Some(encode_server_message(&sm)),
            None => None,
        },
        None => None,
    }
}

} // verus!
