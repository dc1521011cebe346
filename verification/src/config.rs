//! What a client is configured with: the endpoint, the credentials, the
//! capabilities it declares, and the timing of heartbeat and reconnect.

use vstd::prelude::*;

verus! {

/// The protocol version that `hello` announces.
pub const PROTOCOL_VERSION: u64 = 2;

/// Default time between two outbound pings, in milliseconds.
pub const HEARTBEAT_INTERVAL_MS: u64 = 15_000;

/// Default time the reader waits for any inbound message, in milliseconds.
pub const HEARTBEAT_TIMEOUT_MS: u64 = 30_000;

/// Default first reconnect delay, in milliseconds.
pub const BACKOFF_INITIAL_MS: u64 = 1_000;

/// Default cap of the reconnect delay, in milliseconds.
pub const BACKOFF_MAX_MS: u64 = 30_000;

#[derive(Clone, Debug)]
pub struct BridgeConfig {
    pub url: String,
    pub secret: String,
    pub project_id: Option<String>,
    pub capabilities: Vec<String>,
    pub heartbeat_interval_ms: u64,
    pub heartbeat_timeout_ms: u64,
    pub backoff_initial_ms: u64,
    pub backoff_max_ms: u64,
}

/// The texts of a list of strings, in order.
pub open spec fn texts_of(names: Seq<String>) -> Seq<Seq<char>> {
    names.map_values(|s: String| s@)
}

/// The text of an optional string.
pub open spec fn text_of(name: Option<String>) -> Option<Seq<char>> {
    match name {
        Some(s) => Some(s@),
        None => None,
    }
}

impl BridgeConfig {
    /// The timing policies make sense: the reader waits longer than the
    /// pinger's interval, and the first reconnect delay is within the cap.
    pub open spec fn well_formed(&self) -> bool {
        &&& self.heartbeat_interval_ms < self.heartbeat_timeout_ms
        &&& self.backoff_initial_ms <= self.backoff_max_ms
    }

    /// Tests [`Self::well_formed`].
    pub fn is_well_formed(&self) -> (ok: bool)
        ensures
            ok == self.well_formed(),
    {
        self.heartbeat_interval_ms < self.heartbeat_timeout_ms && self.backoff_initial_ms
            <= self.backoff_max_ms
    }
}

impl Default for BridgeConfig {
    /// The configuration for local development: the local endpoint, the
    /// development secret, no project, the capabilities `console` and `error`,
    /// and the default timing.
    fn default() -> (cfg: Self)
        ensures
            cfg.url@ == "ws://localhost:9877"@,
            cfg.secret@ == "dev-secret"@,
            cfg.project_id is None,
            texts_of(cfg.capabilities@) == seq!["console"@, "error"@],
            cfg.heartbeat_interval_ms == HEARTBEAT_INTERVAL_MS,
            cfg.heartbeat_timeout_ms == HEARTBEAT_TIMEOUT_MS,
            cfg.backoff_initial_ms == BACKOFF_INITIAL_MS,
            cfg.backoff_max_ms == BACKOFF_MAX_MS,
            cfg.well_formed(),
    {
        let mut capabilities: Vec<String> = Vec::new();
        capabilities.push("console".to_owned());
        capabilities.push("error".to_owned());
        assert(texts_of(capabilities@) =~= seq!["console"@, "error"@]);
        BridgeConfig {
            url: "ws://localhost:9877".to_owned(),
            secret: "dev-secret".to_owned(),
            project_id: None,
            capabilities,
            heartbeat_interval_ms: HEARTBEAT_INTERVAL_MS,
            heartbeat_timeout_ms: HEARTBEAT_TIMEOUT_MS,
            backoff_initial_ms: BACKOFF_INITIAL_MS,
            backoff_max_ms: BACKOFF_MAX_MS,
        }
    }
}

} // verus!
