use led_controller::config::Config;
use led_controller::led::Led;
use led_controller::messages::{decode_client_message, encode_server_message, ClientMessage,
    ServerMessage};
use led_controller::session::{handle_text, SharedState};

fn fresh_state() -> SharedState {
    SharedState::new(Led::load())
}

#[test]
fn ping_yields_pong_on_fresh_state() {
    let mut st = fresh_state();
    let reply = handle_text(&mut st, "ping");
    assert_eq!(reply.as_deref(), Some("pong"));
    assert!(!st.led_on);
    assert!(!st.led.active);
}

#[test]
fn ping_yields_pong_whatever_the_structured_state() {
    let mut st = fresh_state();
    assert!(handle_text(&mut st, "{\"type\":\"SetLedStatus\",\"status\":true}").is_none());
    let reply = handle_text(&mut st, "ping");
    assert_eq!(reply.as_deref(), Some("pong"));
    assert!(st.led_on);
    assert!(st.led.active);
}

#[test]
fn set_then_query_round_trip() {
    let mut st = fresh_state();
    let first = handle_text(&mut st, "{\"type\":\"SetLedStatus\",\"status\":true}");
    assert!(first.is_none());
    let second = handle_text(&mut st, "{\"type\":\"QueryLedStatus\"}");
    assert_eq!(second.as_deref(), Some("{\"type\":\"LedStatus\",\"status\":true}"));
}

#[test]
fn second_session_sees_first_sessions_write() {
    // Two sessions share one state cell; session A writes, session B reads.
    let mut st = fresh_state();
    assert!(handle_text(&mut st, "{\"type\":\"SetLedStatus\",\"status\":true}").is_none());
    let seen_by_b = handle_text(&mut st, "{\"type\":\"QueryLedStatus\"}");
    assert_eq!(seen_by_b.as_deref(), Some("{\"type\":\"LedStatus\",\"status\":true}"));
}

#[test]
fn last_completed_write_wins() {
    let mut st = fresh_state();
    assert!(handle_text(&mut st, "{\"type\":\"SetLedStatus\",\"status\":true}").is_none());
    assert!(handle_text(&mut st, "{\"type\":\"SetLedStatus\",\"status\":false}").is_none());
    assert!(!st.led_on);
    assert!(!st.led.active);
    let reply = handle_text(&mut st, "{\"type\":\"QueryLedStatus\"}");
    assert_eq!(reply.as_deref(), Some("{\"type\":\"LedStatus\",\"status\":false}"));
}

#[test]
fn malformed_payloads_change_nothing_and_answer_nothing() {
    let mut st = fresh_state();
    assert!(handle_text(&mut st, "{\"type\":\"SetLedStatus\",\"status\":true}").is_none());
    let malformed = [
        "{not json",
        "",
        "pingg",
        "42",
        "[1,2,3]",
        "{\"type\":\"NoSuchThing\"}",
        "{\"type\":\"SetLedStatus\"}",
        "{\"type\":\"SetLedStatus\",\"status\":1}",
        "{\"type\":\"SetLedStatus\",\"status\":\"false\"}",
        "{\"status\":false}",
        "{\"type\":42}",
    ];
    for text in malformed {
        assert!(handle_text(&mut st, text).is_none(), "dropped: {text}");
        assert!(st.led_on);
        assert!(st.led.active);
    }
}

#[test]
fn pong_is_informational_only() {
    let mut st = fresh_state();
    assert!(handle_text(&mut st, "{\"type\":\"Pong\"}").is_none());
    assert!(!st.led_on);
    assert!(!st.led.active);
}

#[test]
fn decoder_accepts_any_field_order_and_whitespace() {
    assert_eq!(
        decode_client_message("{\"status\":true,\"type\":\"SetLedStatus\"}"),
        Some(ClientMessage::SetLedStatus { status: true })
    );
    assert_eq!(
        decode_client_message("{ \"type\" : \"QueryLedStatus\" }"),
        Some(ClientMessage::QueryLedStatus)
    );
    assert_eq!(decode_client_message("{\"type\":\"Pong\"}"), Some(ClientMessage::Pong));
    assert_eq!(decode_client_message("{\"type\":\"LedStatus\"}"), None);
    assert_eq!(decode_client_message("\"ping\""), None);
}

#[test]
fn encoder_produces_the_exact_wire_text() {
    assert_eq!(
        encode_server_message(&ServerMessage::LedStatus { status: true }),
        "{\"type\":\"LedStatus\",\"status\":true}"
    );
    assert_eq!(
        encode_server_message(&ServerMessage::LedStatus { status: false }),
        "{\"type\":\"LedStatus\",\"status\":false}"
    );
    assert_eq!(encode_server_message(&ServerMessage::Ping), "{\"type\":\"Ping\"}");
}

#[test]
fn encoded_messages_are_valid_tagged_json() {
    let text = encode_server_message(&ServerMessage::LedStatus { status: true });
    let v: serde_json::Value = serde_json::from_str(&text).unwrap();
    assert_eq!(v["type"], "LedStatus");
    assert_eq!(v["status"], true);
    let ping: serde_json::Value =
        serde_json::from_str(&encode_server_message(&ServerMessage::Ping)).unwrap();
    assert_eq!(ping["type"], "Ping");
}

#[test]
fn config_keeps_the_given_credentials() {
    let c = Config::load("net".to_string(), "secret".to_string());
    assert_eq!(c.wifi_ssid, "net");
    assert_eq!(c.wifi_pass, "secret");
}

#[test]
fn led_driver_starts_safe_and_tracks_commands() {
    let mut led = Led::load();
    assert!(!led.active);
    led.on();
    assert!(led.active);
    led.off();
    assert!(!led.active);
}
