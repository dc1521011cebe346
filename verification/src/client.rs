//! The client: a configuration and the operations that run on it.

use vstd::prelude::*;
use std::time::SystemTime;
use crate::clock::{now_ms, stamp_at};
use crate::config::{text_of, texts_of, BridgeConfig, PROTOCOL_VERSION};
use crate::endpoint::{endpoint_text, parse_endpoint};
use crate::error::{already_closed, BridgeError};
use crate::message::{auth_frame, hello_frame, WireMessage};
use crate::reconnect::{action_after_event, delay_after_event, Backoff, LoopAction, LoopEvent};
use crate::session::{Session, SessionView};

verus! {

#[derive(Clone)]
pub struct BridgeClient {
    cfg: BridgeConfig,
}

impl View for BridgeClient {
    type V = BridgeConfig;

    /// The configuration that the client was made with.
    closed spec fn view(&self) -> BridgeConfig {
        self.cfg
    }
}

/// The `auth` message of a handshake under `cfg`.
pub open spec fn auth_of(cfg: BridgeConfig) -> WireMessage {
    WireMessage::Auth { secret: cfg.secret@ }
}

/// The `hello` message of a handshake under `cfg`: the configured
/// capabilities and project, the platform `rust`, and the protocol version.
pub open spec fn hello_of(cfg: BridgeConfig) -> WireMessage {
    WireMessage::Hello {
        capabilities: texts_of(cfg.capabilities@),
        platform: "rust"@,
        project_id: text_of(cfg.project_id),
        protocol: PROTOCOL_VERSION,
    }
}

/// What sending an event does to a session, given the timestamp that the
/// clock gave: a closed session refuses it with a transport error; an open
/// one takes the frame of `event`, made with that timestamp, and fails with
/// a clock error where there is none. A session that fails stays as it was.
pub open spec fn event_sent(
    before: SessionView,
    after: SessionView,
    r: Result<(), BridgeError>,
    stamp: Option<u64>,
    event: spec_fn(u64) -> WireMessage,
) -> bool {
    if !before.open {
        after == before && r matches Err(BridgeError::Ws(_))
    } else {
        match stamp {
            Some(timestamp) => after == before.with_frame(event(timestamp)) && r is Ok,
            None => after == before && r matches Err(BridgeError::Clock),
        }
    }
}

/// [`event_sent`] for a console event of the given level and message.
pub open spec fn console_sent(
    before: SessionView,
    after: SessionView,
    r: Result<(), BridgeError>,
    level: Seq<char>,
    message: Seq<char>,
    stamp: Option<u64>,
) -> bool {
    event_sent(
        before,
        after,
        r,
        stamp,
        |timestamp: u64| WireMessage::Console { level, message, timestamp },
    )
}

/// [`event_sent`] for an error event of the given message.
pub open spec fn error_sent(
    before: SessionView,
    after: SessionView,
    r: Result<(), BridgeError>,
    message: Seq<char>,
    stamp: Option<u64>,
) -> bool {
    event_sent(before, after, r, stamp, |timestamp: u64| WireMessage::Error { message, timestamp })
}

impl BridgeClient {
    pub fn new(cfg: BridgeConfig) -> (client: Self)
        ensures
            client@ == cfg,
    {
        Self { cfg }
    }

    /// The configuration that the client was made with.
    pub fn config(&self) -> (cfg: &BridgeConfig)
        ensures
            *cfg == self@,
    {
        &self.cfg
    }

    /// The handshake: reads the configured endpoint and prepares a session
    /// to it on which `auth` waits to be written first and `hello` second.
    /// Nothing is read, and no answer is waited for.
    ///
    /// Fails with a configuration error exactly when the endpoint is
    /// malformed; no session is made then.
    pub fn connect(&self) -> (r: Result<Session, BridgeError>)
        ensures
            match r {
                Ok(ws) => endpoint_text(self@.url@) is Some && ws@ == (SessionView {
                    endpoint: endpoint_text(self@.url@)->Some_0,
                    open: true,
                    pending: seq![auth_of(self@).frame(), hello_of(self@).frame()],
                }),
                Err(e) => endpoint_text(self@.url@) is None && e is Url,
            },
    {
        let endpoint = match parse_endpoint(self.cfg.url.as_str()) {
            Ok(text) => text,
            Err(e) => {
                return Err(BridgeError::Url(e));
            },
        };
        let mut ws = Session::new(endpoint);
        let auth = auth_frame(self.cfg.secret.as_str());
        let _ = ws.write(auth, Ghost(auth_of(self@)));
        let hello = hello_frame(
            &self.cfg.capabilities,
            "rust",
            &self.cfg.project_id,
            PROTOCOL_VERSION,
        );
        let _ = ws.write(hello, Ghost(hello_of(self@)));
        assert(ws@.pending =~= seq![auth_of(self@).frame(), hello_of(self@).frame()]);
        Ok(ws)
    }

    /// One step of the reconnect loop: takes what the driver reports, updates
    /// the delay, and says what the driver does next.
    ///
    /// The loop begins with `Begin`. A handshake that succeeds resets the
    /// delay to the first delay; a cycle that ends, with or without a
    /// handshake, doubles it up to the cap and sleeps for it. No event ends
    /// the loop.
    pub fn run_with_reconnect(&self, backoff: &mut Backoff, event: LoopEvent) -> (action:
        LoopAction)
        ensures
            final(backoff).delay_ms == delay_after_event(
                self@,
                old(backoff).delay_ms as int,
                event,
            ),
            action == action_after_event(self@, old(backoff).delay_ms as int, event),
    {
        match event {
            LoopEvent::Begin => {
                backoff.delay_ms = self.cfg.backoff_initial_ms;
                LoopAction::Connect
            },
            LoopEvent::Woke => LoopAction::Connect,
            LoopEvent::Connected => {
                backoff.delay_ms = self.cfg.backoff_initial_ms;
                LoopAction::Monitor {
                    ping_every_ms: self.cfg.heartbeat_interval_ms,
                    silence_limit_ms: self.cfg.heartbeat_timeout_ms,
                }
            },
            LoopEvent::ConnectFailed | LoopEvent::SessionEnded => {
                let ms = backoff.lengthen(self.cfg.backoff_max_ms);
                LoopAction::Sleep { ms }
            },
        }
    }

    /// Writes a console event with the timestamp that the clock gave.
    ///
    /// A closed session refuses the event with a transport error, whatever
    /// the clock gave. An open one takes the frame of the event with that
    /// timestamp; where the clock gave none, the call fails with a clock
    /// error. A call that fails writes nothing.
    pub fn send_console_stamped(
        &self,
        ws: &mut Session,
        level: &str,
        message: &str,
        stamp: Option<u64>,
    ) -> (r: Result<(), BridgeError>)
        ensures
            console_sent(old(ws)@, final(ws)@, r, level@, message@, stamp),
    {
        if !ws.is_open() {
            return Err(BridgeError::Ws(already_closed()));
        }
        match stamp {
            Some(timestamp) => ws.emit_console(level, message, timestamp),
            None => Err(BridgeError::Clock),
        }
    }

    /// Writes a console event, stamped with the time of the call.
    ///
    /// What happens is what [`Self::send_console_stamped`] does with the
    /// timestamp of some time: the one that the clock showed. On a closed
    /// session the call fails with a transport error and nothing is written.
    pub fn send_console(&self, ws: &mut Session, level: &str, message: &str) -> (r: Result<
        (),
        BridgeError,
    >)
        ensures
            exists|t: SystemTime|
                console_sent(old(ws)@, final(ws)@, r, level@, message@, #[trigger] stamp_at(t)),
            !old(ws)@.open ==> final(ws)@ == old(ws)@ && r matches Err(BridgeError::Ws(_)),
    {
        let stamp = now_ms();
        let r = self.send_console_stamped(ws, level, message, stamp);
        proof {
            let t = choose|t: SystemTime| stamp == #[trigger] stamp_at(t);
            assert(console_sent(old(ws)@, ws@, r, level@, message@, stamp_at(t)));
        }
        r
    }

    /// Writes an error event with the timestamp that the clock gave.
    ///
    /// A closed session refuses the event with a transport error, whatever
    /// the clock gave. An open one takes the frame of the event with that
    /// timestamp; where the clock gave none, the call fails with a clock
    /// error. A call that fails writes nothing.
    pub fn send_error_stamped(&self, ws: &mut Session, message: &str, stamp: Option<u64>) -> (r:
        Result<(), BridgeError>)
        ensures
            error_sent(old(ws)@, final(ws)@, r, message@, stamp),
    {
        if !ws.is_open() {
            return Err(BridgeError::Ws(already_closed()));
        }
        match stamp {
            Some(timestamp) => ws.emit_error(message, timestamp),
            None => Err(BridgeError::Clock),
        }
    }

    /// Writes an error event, stamped with the time of the call.
    ///
    /// What happens is what [`Self::send_error_stamped`] does with the
    /// timestamp of some time: the one that the clock showed. On a closed
    /// session the call fails with a transport error and nothing is written.
    pub fn send_error(&self, ws: &mut Session, message: &str) -> (r: Result<(), BridgeError>)
        ensures
            exists|t: SystemTime|
                error_sent(old(ws)@, final(ws)@, r, message@, #[trigger] stamp_at(t)),
            !old(ws)@.open ==> final(ws)@ == old(ws)@ && r matches Err(BridgeError::Ws(_)),
    {
        let stamp = now_ms();
        let r = self.send_error_stamped(ws, message, stamp);
        proof {
            let t = choose|t: SystemTime| stamp == #[trigger] stamp_at(t);
            assert(error_sent(old(ws)@, ws@, r, message@, stamp_at(t)));
        }
        r
    }

    /// One beat of the pinger: writes a ping to the session. The driver
    /// calls it once every heartbeat interval and stops at the first failure.
    ///
    /// On a closed session the call fails with a transport error and nothing
    /// is written.
    pub fn run_heartbeat(&self, ws: &mut Session) -> (r: Result<(), BridgeError>)
        ensures
            final(ws)@ == old(ws)@.after_write(WireMessage::Ping),
            old(ws)@.open ==> r is Ok,
            !old(ws)@.open ==> r matches Err(BridgeError::Ws(_)),
    {
        ws.beat()
    }
}

} // verus!
