use code_bridge_client::client::BridgeClient;
use code_bridge_client::clock::{now_ms, timestamp_of};
use code_bridge_client::config::BridgeConfig;
use code_bridge_client::error::BridgeError;
use code_bridge_client::json::read_text_member;
use code_bridge_client::message::{
    auth_frame, console_frame, error_frame, hello_frame, is_ping_frame, ping_frame, pong_frame,
};
use code_bridge_client::session::{Inbound, Session};

fn client() -> BridgeClient {
    BridgeClient::new(BridgeConfig::default())
}

fn open_session() -> Session {
    Session::new("ws://localhost:9877/".to_string())
}

fn closed_session() -> Session {
    let mut ws = open_session();
    ws.close();
    ws
}

fn wall_clock_ms() -> u64 {
    std::time::SystemTime::now().duration_since(std::time::UNIX_EPOCH).unwrap().as_millis() as u64
}

#[test]
fn new_session_is_open_and_empty() {
    let ws = Session::new("ws://h/".to_string());
    assert!(ws.is_open());
    assert_eq!(ws.pending_len(), 0);
    assert_eq!(ws.endpoint(), "ws://h/");
}

#[test]
fn frames_have_the_documented_members() {
    assert_eq!(ping_frame(), r#"{"type":"ping"}"#);
    assert_eq!(pong_frame(), r#"{"type":"pong"}"#);
    assert_eq!(auth_frame("k"), r#"{"role":"bridge","secret":"k","type":"auth"}"#);
    assert_eq!(
        console_frame("info", "hello", 1_700_000_000_123),
        r#"{"level":"info","message":"hello","timestamp":1700000000123,"type":"console"}"#
    );
    assert_eq!(error_frame("boom", 0), r#"{"message":"boom","timestamp":0,"type":"error"}"#);
    assert_eq!(
        hello_frame(&vec!["a".to_string()], "rust", &Some("p".to_string()), 2),
        r#"{"capabilities":["a"],"platform":"rust","projectId":"p","protocol":2,"type":"hello"}"#
    );
}

#[test]
fn frames_escape_their_texts() {
    assert_eq!(
        error_frame("line\nbreak \"q\" \\", u64::MAX),
        r#"{"message":"line\nbreak \"q\" \\","timestamp":18446744073709551615,"type":"error"}"#
    );
}

#[test]
fn send_console_on_a_closed_session_fails_and_writes_nothing() {
    let mut ws = closed_session();
    let r = client().send_console(&mut ws, "info", "hello");
    assert!(matches!(r, Err(BridgeError::Ws(_))));
    assert_eq!(ws.pending_len(), 0);
    assert!(!ws.is_open());
    assert!(ws.take_pending().is_empty());
}

#[test]
fn send_error_on_a_closed_session_fails_and_writes_nothing() {
    let mut ws = closed_session();
    let r = client().send_error(&mut ws, "boom");
    assert!(matches!(r, Err(BridgeError::Ws(_))));
    assert_eq!(ws.pending_len(), 0);
}

#[test]
fn closing_keeps_what_was_already_waiting() {
    let mut ws = open_session();
    ws.emit_error("first", 1).unwrap();
    ws.close();
    assert!(ws.emit_error("second", 2).is_err());
    assert!(ws.emit_console("info", "third", 3).is_err());
    assert!(ws.beat().is_err());
    assert_eq!(ws.take_pending(), vec![r#"{"message":"first","timestamp":1,"type":"error"}"#.to_string()]);
}

#[test]
fn console_event_round_trip() {
    let mut ws = open_session();
    let before = wall_clock_ms();
    client().send_console(&mut ws, "info", "hello").unwrap();
    let after = wall_clock_ms();
    let frames = ws.take_pending();
    assert_eq!(frames.len(), 1);
    let doc: serde_json::Value = serde_json::from_str(&frames[0]).unwrap();
    let members = doc.as_object().expect("a console event is an object");
    let mut names: Vec<&str> = members.keys().map(|k| k.as_str()).collect();
    names.sort();
    assert_eq!(names, vec!["level", "message", "timestamp", "type"]);
    assert_eq!(doc.get("type").and_then(|v| v.as_str()), Some("console"));
    assert_eq!(doc.get("level").and_then(|v| v.as_str()), Some("info"));
    assert_eq!(doc.get("message").and_then(|v| v.as_str()), Some("hello"));
    let ts = doc.get("timestamp").and_then(|v| v.as_u64()).unwrap();
    assert!(before <= ts && ts <= after);
    assert!(after - before < 5_000);
}

#[test]
fn error_event_round_trip() {
    let mut ws = open_session();
    let before = wall_clock_ms();
    client().send_error(&mut ws, "sample error").unwrap();
    let after = wall_clock_ms();
    let frames = ws.take_pending();
    let doc: serde_json::Value = serde_json::from_str(&frames[0]).unwrap();
    assert_eq!(doc.as_object().unwrap().len(), 3);
    assert_eq!(doc.get("type").and_then(|v| v.as_str()), Some("error"));
    assert_eq!(doc.get("message").and_then(|v| v.as_str()), Some("sample error"));
    let ts = doc.get("timestamp").and_then(|v| v.as_u64()).unwrap();
    assert!(before <= ts && ts <= after);
}

#[test]
fn emit_with_a_given_timestamp_is_exact() {
    let mut ws = open_session();
    ws.emit_console("warn", "w", 42).unwrap();
    ws.emit_error("e", 43).unwrap();
    assert_eq!(
        ws.take_pending(),
        vec![
            r#"{"level":"warn","message":"w","timestamp":42,"type":"console"}"#.to_string(),
            r#"{"message":"e","timestamp":43,"type":"error"}"#.to_string(),
        ]
    );
}

#[test]
fn now_ms_reads_the_wall_clock() {
    let before = wall_clock_ms();
    let t = now_ms().expect("the clock stands after the epoch");
    let after = wall_clock_ms();
    assert!(before <= t && t <= after);
    assert!(t > 1_600_000_000_000);
}

#[test]
fn heartbeat_writes_one_ping_per_beat() {
    let mut ws = open_session();
    let c = client();
    c.run_heartbeat(&mut ws).unwrap();
    c.run_heartbeat(&mut ws).unwrap();
    assert_eq!(ws.take_pending(), vec![r#"{"type":"ping"}"#.to_string(); 2]);
}

#[test]
fn heartbeat_fails_on_a_closed_session() {
    let mut ws = closed_session();
    assert!(matches!(client().run_heartbeat(&mut ws), Err(BridgeError::Ws(_))));
    assert_eq!(ws.pending_len(), 0);
}

#[test]
fn a_ping_is_answered_with_exactly_one_pong() {
    let mut ws = open_session();
    assert!(ws.receive(Inbound::Text(r#"{"type":"ping"}"#.to_string())));
    assert!(ws.is_open());
    assert_eq!(ws.take_pending(), vec![r#"{"type":"pong"}"#.to_string()]);
}

#[test]
fn each_ping_gets_its_pong_before_the_next_message() {
    let mut ws = open_session();
    ws.receive(Inbound::Text(r#"{"type":"ping"}"#.to_string()));
    assert_eq!(ws.pending_len(), 1);
    ws.receive(Inbound::Text(r#"{"type":"console","level":"info"}"#.to_string()));
    assert_eq!(ws.pending_len(), 1);
    ws.receive(Inbound::Text(r#" { "extra" : [1, 2.5] , "type" : "ping" } "#.to_string()));
    assert_eq!(ws.pending_len(), 2);
}

#[test]
fn other_messages_are_passed_over() {
    let mut ws = open_session();
    assert!(ws.receive(Inbound::Text(r#"{"type":"pong"}"#.to_string())));
    assert!(ws.receive(Inbound::Text(r#"{"type":"hello"}"#.to_string())));
    assert!(ws.receive(Inbound::Text("not json at all".to_string())));
    assert!(ws.receive(Inbound::Text(r#"{"type":7}"#.to_string())));
    assert!(ws.receive(Inbound::Text(r#"{"kind":"ping"}"#.to_string())));
    assert!(ws.receive(Inbound::Text(r#"["ping"]"#.to_string())));
    assert!(ws.receive(Inbound::Text(r#""ping""#.to_string())));
    assert!(ws.receive(Inbound::Text(String::new())));
    assert!(ws.receive(Inbound::Other));
    assert!(ws.is_open());
    assert_eq!(ws.pending_len(), 0);
}

#[test]
fn silence_closes_the_session() {
    let mut ws = open_session();
    assert!(!ws.receive(Inbound::TimedOut));
    assert!(!ws.is_open());
    assert_eq!(ws.pending_len(), 0);
}

#[test]
fn silence_closes_the_session_however_many_pings_were_sent() {
    let c = client();
    for beats in [0usize, 1, 2, 50] {
        let mut ws = open_session();
        for _ in 0..beats {
            c.run_heartbeat(&mut ws).unwrap();
        }
        assert!(!ws.receive(Inbound::TimedOut));
        assert!(!ws.is_open());
        assert_eq!(ws.pending_len(), beats);
        assert!(c.run_heartbeat(&mut ws).is_err());
    }
}

#[test]
fn a_transport_error_or_the_end_of_the_stream_closes_the_session() {
    let mut ws = open_session();
    assert!(!ws.receive(Inbound::Failed));
    assert!(!ws.is_open());
    let mut ws = open_session();
    assert!(!ws.receive(Inbound::Ended));
    assert!(!ws.is_open());
}

#[test]
fn a_closed_session_answers_nothing() {
    let mut ws = closed_session();
    assert!(!ws.receive(Inbound::Text(r#"{"type":"ping"}"#.to_string())));
    assert!(!ws.receive(Inbound::Other));
    assert_eq!(ws.pending_len(), 0);
    assert!(!ws.is_open());
}

#[test]
fn take_pending_hands_out_frames_oldest_first() {
    let mut ws = client().connect().unwrap();
    client().run_heartbeat(&mut ws).unwrap();
    ws.receive(Inbound::Text(r#"{"type":"ping"}"#.to_string()));
    let frames = ws.take_pending();
    let kinds: Vec<String> =
        frames.iter().map(|f| read_text_member(f, "type").expect("a whole frame")).collect();
    assert_eq!(kinds, vec!["auth", "hello", "ping", "pong"]);
    assert!(ws.take_pending().is_empty());
    assert!(ws.is_open());
}

#[test]
fn every_frame_is_one_whole_json_document() {
    let mut ws = client().connect().unwrap();
    let c = client();
    for i in 0..10u64 {
        c.run_heartbeat(&mut ws).unwrap();
        ws.receive(Inbound::Text(r#"{"type":"ping"}"#.to_string()));
        ws.emit_console("debug", "interleaved", i).unwrap();
    }
    let frames = ws.take_pending();
    assert_eq!(frames.len(), 32);
    for frame in &frames {
        let doc: serde_json::Value = serde_json::from_str(frame).expect("a whole document");
        assert!(doc.is_object());
        assert!(doc.get("type").and_then(|t| t.as_str()).is_some());
    }
}

#[test]
fn is_ping_frame_reads_the_type_member() {
    assert!(is_ping_frame(r#"{"type":"ping"}"#));
    assert!(is_ping_frame(r#"{"a":1,"type":"ping","b":null}"#));
    assert!(is_ping_frame(&ping_frame()));
    assert!(!is_ping_frame(&pong_frame()));
    assert!(!is_ping_frame(r#"{"type":"PING"}"#));
    assert!(!is_ping_frame(r#"{"type":"ping""#));
    assert!(!is_ping_frame(r#"{"type":["ping"]}"#));
    assert!(!is_ping_frame("ping"));
}

#[test]
fn read_text_member_reads_strings_only() {
    assert_eq!(read_text_member(r#"{"a":"x","b":2}"#, "a"), Some("x".to_string()));
    assert_eq!(read_text_member(r#"{"a":"x","b":2}"#, "b"), None);
    assert_eq!(read_text_member(r#"{"a":"x","b":2}"#, "c"), None);
    assert_eq!(read_text_member(r#"[1,2]"#, "a"), None);
    assert_eq!(read_text_member("{", "a"), None);
    assert_eq!(read_text_member(r#"{"a":"A\n"}"#, "a"), Some("A\n".to_string()));
}

#[test]
fn timestamp_keeps_the_low_64_bits() {
    assert_eq!(timestamp_of(0), 0);
    assert_eq!(timestamp_of(1_700_000_000_123), 1_700_000_000_123);
    assert_eq!(timestamp_of(u64::MAX as u128), u64::MAX);
    assert_eq!(timestamp_of(u64::MAX as u128 + 1), 0);
    assert_eq!(timestamp_of(u64::MAX as u128 + 8), 7);
    assert_eq!(timestamp_of(u128::MAX), u64::MAX);
}

#[test]
fn an_event_takes_the_timestamp_that_the_clock_gave() {
    let mut ws = open_session();
    client().send_console_stamped(&mut ws, "info", "hello", Some(1_700_000_000_123)).unwrap();
    client().send_error_stamped(&mut ws, "boom", Some(5)).unwrap();
    assert_eq!(
        ws.take_pending(),
        vec![
            r#"{"level":"info","message":"hello","timestamp":1700000000123,"type":"console"}"#
                .to_string(),
            r#"{"message":"boom","timestamp":5,"type":"error"}"#.to_string(),
        ]
    );
}

#[test]
fn an_event_without_a_timestamp_fails_and_writes_nothing() {
    let mut ws = open_session();
    let r = client().send_console_stamped(&mut ws, "info", "hello", None);
    assert!(matches!(r, Err(BridgeError::Clock)));
    let r = client().send_error_stamped(&mut ws, "boom", None);
    assert!(matches!(r, Err(BridgeError::Clock)));
    assert_eq!(ws.pending_len(), 0);
    assert!(ws.is_open());
}

#[test]
fn a_closed_session_refuses_an_event_whatever_the_clock_gave() {
    let mut ws = closed_session();
    let c = client();
    assert!(matches!(c.send_console_stamped(&mut ws, "i", "m", Some(1)), Err(BridgeError::Ws(_))));
    assert!(matches!(c.send_console_stamped(&mut ws, "i", "m", None), Err(BridgeError::Ws(_))));
    assert!(matches!(c.send_error_stamped(&mut ws, "m", Some(1)), Err(BridgeError::Ws(_))));
    assert!(matches!(c.send_error_stamped(&mut ws, "m", None), Err(BridgeError::Ws(_))));
    assert_eq!(ws.pending_len(), 0);
}
