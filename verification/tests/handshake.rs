use code_bridge_client::client::BridgeClient;
use code_bridge_client::config::{
    BridgeConfig, BACKOFF_INITIAL_MS, BACKOFF_MAX_MS, HEARTBEAT_INTERVAL_MS, HEARTBEAT_TIMEOUT_MS,
    PROTOCOL_VERSION,
};
use code_bridge_client::error::BridgeError;

fn config_for(url: &str) -> BridgeConfig {
    BridgeConfig { url: url.to_string(), ..BridgeConfig::default() }
}

#[test]
fn default_config_is_the_local_development_setup() {
    let cfg = BridgeConfig::default();
    assert_eq!(cfg.url, "ws://localhost:9877");
    assert_eq!(cfg.secret, "dev-secret");
    assert_eq!(cfg.project_id, None);
    assert_eq!(cfg.capabilities, vec!["console".to_string(), "error".to_string()]);
    assert_eq!(cfg.heartbeat_interval_ms, 15_000);
    assert_eq!(cfg.heartbeat_timeout_ms, 30_000);
    assert_eq!(cfg.backoff_initial_ms, 1_000);
    assert_eq!(cfg.backoff_max_ms, 30_000);
}

#[test]
fn constants_have_the_documented_values() {
    assert_eq!(PROTOCOL_VERSION, 2);
    assert_eq!(HEARTBEAT_INTERVAL_MS, 15_000);
    assert_eq!(HEARTBEAT_TIMEOUT_MS, 30_000);
    assert_eq!(BACKOFF_INITIAL_MS, 1_000);
    assert_eq!(BACKOFF_MAX_MS, 30_000);
}

#[test]
fn default_config_is_well_formed() {
    assert!(BridgeConfig::default().is_well_formed());
}

#[test]
fn timeout_must_exceed_interval() {
    let mut cfg = BridgeConfig::default();
    cfg.heartbeat_timeout_ms = cfg.heartbeat_interval_ms;
    assert!(!cfg.is_well_formed());
}

#[test]
fn first_delay_must_not_exceed_cap() {
    let mut cfg = BridgeConfig::default();
    cfg.backoff_initial_ms = cfg.backoff_max_ms + 1;
    assert!(!cfg.is_well_formed());
    cfg.backoff_initial_ms = cfg.backoff_max_ms;
    assert!(cfg.is_well_formed());
}

#[test]
fn client_keeps_its_config() {
    let mut cfg = config_for("ws://bridge.example:1234/socket");
    cfg.secret = "s3".to_string();
    let client = BridgeClient::new(cfg);
    assert_eq!(client.config().url, "ws://bridge.example:1234/socket");
    assert_eq!(client.config().secret, "s3");
}

#[test]
fn connect_queues_auth_then_hello() {
    let client = BridgeClient::new(BridgeConfig::default());
    let mut ws = client.connect().expect("the default endpoint is well formed");
    assert!(ws.is_open());
    assert_eq!(ws.pending_len(), 2);
    let frames = ws.take_pending();
    assert_eq!(frames.len(), 2);
    assert_eq!(frames[0], r#"{"role":"bridge","secret":"dev-secret","type":"auth"}"#);
    assert_eq!(
        frames[1],
        r#"{"capabilities":["console","error"],"platform":"rust","projectId":null,"protocol":2,"type":"hello"}"#
    );
    assert_eq!(ws.pending_len(), 0);
}

#[test]
fn hello_announces_protocol_two() {
    let client = BridgeClient::new(BridgeConfig::default());
    let mut ws = client.connect().unwrap();
    let frames = ws.take_pending();
    let auth: serde_json::Value = serde_json::from_str(&frames[0]).unwrap();
    let hello: serde_json::Value = serde_json::from_str(&frames[1]).unwrap();
    assert_eq!(auth.get("type").and_then(|t| t.as_str()), Some("auth"));
    assert_eq!(auth.get("role").and_then(|t| t.as_str()), Some("bridge"));
    assert_eq!(hello.get("type").and_then(|t| t.as_str()), Some("hello"));
    assert_eq!(hello.get("protocol").and_then(|p| p.as_u64()), Some(2));
    assert_eq!(hello.get("platform").and_then(|p| p.as_str()), Some("rust"));
}

#[test]
fn hello_carries_project_and_capabilities_in_order() {
    let cfg = BridgeConfig {
        project_id: Some("rust-example".to_string()),
        capabilities: vec!["zeta".to_string(), "alpha".to_string(), "zeta".to_string()],
        secret: "a \"quoted\" secret".to_string(),
        ..BridgeConfig::default()
    };
    let client = BridgeClient::new(cfg);
    let mut ws = client.connect().unwrap();
    let frames = ws.take_pending();
    assert_eq!(frames[0], r#"{"role":"bridge","secret":"a \"quoted\" secret","type":"auth"}"#);
    assert_eq!(
        frames[1],
        r#"{"capabilities":["zeta","alpha","zeta"],"platform":"rust","projectId":"rust-example","protocol":2,"type":"hello"}"#
    );
}

#[test]
fn connect_with_no_capabilities() {
    let cfg = BridgeConfig { capabilities: Vec::new(), ..BridgeConfig::default() };
    let mut ws = BridgeClient::new(cfg).connect().unwrap();
    let frames = ws.take_pending();
    assert_eq!(
        frames[1],
        r#"{"capabilities":[],"platform":"rust","projectId":null,"protocol":2,"type":"hello"}"#
    );
}

#[test]
fn connect_reads_the_endpoint_as_a_url() {
    let ws = BridgeClient::new(BridgeConfig::default()).connect().unwrap();
    assert_eq!(ws.endpoint(), "ws://localhost:9877/");
    let ws = BridgeClient::new(config_for("WSS://Bridge.Example/a b")).connect().unwrap();
    assert_eq!(ws.endpoint(), "wss://bridge.example/a%20b");
}

#[test]
fn connect_rejects_a_malformed_endpoint() {
    let r = BridgeClient::new(config_for("not a url")).connect();
    assert!(matches!(r, Err(BridgeError::Url(url::ParseError::RelativeUrlWithoutBase))));
    let r = BridgeClient::new(config_for("")).connect();
    assert!(matches!(r, Err(BridgeError::Url(_))));
    let r = BridgeClient::new(config_for("ws://")).connect();
    assert!(matches!(r, Err(BridgeError::Url(url::ParseError::EmptyHost))));
}

#[test]
fn errors_convert_by_cause() {
    let e = BridgeError::from(url::ParseError::EmptyHost);
    assert!(matches!(e, BridgeError::Url(url::ParseError::EmptyHost)));
    let e = BridgeError::from(tokio_tungstenite::tungstenite::Error::ConnectionClosed);
    assert!(matches!(e, BridgeError::Ws(tokio_tungstenite::tungstenite::Error::ConnectionClosed)));
    let bad = serde_json::from_str::<serde_json::Value>("{").unwrap_err();
    let e = BridgeError::from(bad);
    assert!(matches!(e, BridgeError::Json(_)));
}
