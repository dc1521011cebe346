//! The reconnect supervisor as a state machine: the backoff delay, the events
//! that a driver reports, and the action that each event calls for.

use vstd::prelude::*;
use crate::config::BridgeConfig;

verus! {

/// The delay that follows `delay`: twice as long, but no longer than `max`.
pub open spec fn next_delay(delay: int, max: int) -> int {
    if 2 * delay <= max {
        2 * delay
    } else {
        max
    }
}

/// The delay after `failures` cycles in a row that did not reach a handshake,
/// counted from a delay of `initial`.
pub open spec fn delay_after_failures(initial: int, max: int, failures: nat) -> int
    decreases failures,
{
    if failures == 0 {
        initial
    } else {
        next_delay(delay_after_failures(initial, max, (failures - 1) as nat), max)
    }
}

/// Two to the power of `n`.
pub open spec fn two_to(n: nat) -> int
    decreases n,
{
    if n == 0 {
        1
    } else {
        2 * two_to((n - 1) as nat)
    }
}

/// What the driver of the reconnect loop reports.
#[derive(Clone, Copy, Debug, PartialEq, Eq)]
pub enum LoopEvent {
    /// The loop begins.
    Begin,
    /// The transport is open and the handshake was written.
    Connected,
    /// The endpoint is malformed, the transport did not open, or a handshake
    /// write failed.
    ConnectFailed,
    /// The heartbeat monitor of the last session is over.
    SessionEnded,
    /// The sleep that the last action asked for is over.
    Woke,
}

/// What the driver of the reconnect loop does next.
#[derive(Clone, Copy, Debug, PartialEq, Eq)]
pub enum LoopAction {
    /// Attempt a handshake.
    Connect,
    /// Run the heartbeat monitor on the new session until the session dies:
    /// ping at the given interval, and declare the session dead when nothing
    /// arrives within the given limit.
    Monitor { ping_every_ms: u64, silence_limit_ms: u64 },
    /// Sleep for the given time.
    Sleep { ms: u64 },
}

/// The reconnect delay, in milliseconds.
#[derive(Clone, Copy, Debug, PartialEq, Eq)]
pub struct Backoff {
    pub delay_ms: u64,
}

/// The delay that an event leaves behind.
pub open spec fn delay_after_event(cfg: BridgeConfig, delay: int, event: LoopEvent) -> int {
    match event {
        LoopEvent::Begin | LoopEvent::Connected => cfg.backoff_initial_ms as int,
        LoopEvent::ConnectFailed | LoopEvent::SessionEnded => next_delay(
            delay,
            cfg.backoff_max_ms as int,
        ),
        LoopEvent::Woke => delay,
    }
}

/// The action that an event calls for.
pub open spec fn action_after_event(cfg: BridgeConfig, delay: int, event: LoopEvent) -> LoopAction {
    match event {
        LoopEvent::Begin | LoopEvent::Woke => LoopAction::Connect,
        LoopEvent::Connected => LoopAction::Monitor {
            ping_every_ms: cfg.heartbeat_interval_ms,
            silence_limit_ms: cfg.heartbeat_timeout_ms,
        },
        LoopEvent::ConnectFailed | LoopEvent::SessionEnded => LoopAction::Sleep {
            ms: next_delay(delay, cfg.backoff_max_ms as int) as u64,
        },
    }
}

/// The delay after a run of events, in the order in which they came.
pub open spec fn delay_after_events(cfg: BridgeConfig, delay: int, events: Seq<LoopEvent>) -> int
    decreases events.len(),
{
    if events.len() == 0 {
        delay
    } else {
        delay_after_event(
            cfg,
            delay_after_events(cfg, delay, events.drop_last()),
            events.last(),
        )
    }
}

/// `failures` cycles that each fail to connect and then sleep.
pub open spec fn failed_cycles(failures: nat) -> Seq<LoopEvent>
    decreases failures,
{
    if failures == 0 {
        Seq::empty()
    } else {
        failed_cycles((failures - 1) as nat).push(LoopEvent::ConnectFailed).push(LoopEvent::Woke)
    }
}

impl Backoff {
    /// A delay of `delay_ms`.
    pub fn new(delay_ms: u64) -> (b: Self)
        ensures
            b.delay_ms == delay_ms,
    {
        Backoff { delay_ms }
    }

    /// Doubles the delay, up to `max_ms`, and returns the new delay.
    pub fn lengthen(&mut self, max_ms: u64) -> (ms: u64)
        ensures
            ms == next_delay(old(self).delay_ms as int, max_ms as int),
            final(self).delay_ms == ms,
    {
        let ms: u64 = if self.delay_ms <= max_ms / 2 {
            self.delay_ms * 2
        } else {
            max_ms
        };
        self.delay_ms = ms;
        ms
    }
}

/// A delay within the cap never shrinks and never passes the cap; a delay
/// beyond the cap falls back to it.
pub proof fn lemma_next_delay_bounds(delay: int, max: int)
    requires
        0 <= delay,
        0 <= max,
    ensures
        next_delay(delay, max) <= max,
        delay <= max ==> delay <= next_delay(delay, max),
        delay > max ==> next_delay(delay, max) == max,
{
}

/// Over failed cycles in a row the delay never decreases and never passes
/// the cap, as long as it started within the cap.
pub proof fn lemma_failures_nondecreasing_capped(initial: int, max: int, failures: nat)
    requires
        0 <= initial <= max,
    ensures
        initial <= delay_after_failures(initial, max, failures) <= max,
        delay_after_failures(initial, max, failures) <= delay_after_failures(
            initial,
            max,
            failures + 1,
        ),
    decreases failures,
{
    if failures > 0 {
        lemma_failures_nondecreasing_capped(initial, max, (failures - 1) as nat);
    }
    assert(delay_after_failures(initial, max, failures + 1) == next_delay(
        delay_after_failures(initial, max, failures),
        max,
    ));
}

/// After `failures` failed cycles in a row the delay is the first delay
/// doubled that many times, or the cap where that is smaller.
pub proof fn lemma_failures_closed_form(initial: int, max: int, failures: nat)
    requires
        0 <= initial <= max,
    ensures
        delay_after_failures(initial, max, failures) == if initial * two_to(failures) <= max {
            initial * two_to(failures)
        } else {
            max
        },
    decreases failures,
{
    if failures > 0 {
        let k = (failures - 1) as nat;
        lemma_failures_closed_form(initial, max, k);
        lemma_two_to_positive(k);
        assert(initial * two_to(failures) == 2 * (initial * two_to(k))) by (nonlinear_arith)
            requires
                two_to(failures) == 2 * two_to(k),
        ;
        assert(initial <= initial * two_to(k)) by (nonlinear_arith)
            requires
                0 <= initial,
                1 <= two_to(k),
        ;
    }
}

/// A power of two is at least one.
pub proof fn lemma_two_to_positive(n: nat)
    ensures
        1 <= two_to(n),
    decreases n,
{
    if n > 0 {
        lemma_two_to_positive((n - 1) as nat);
    }
}

/// A loop that begins and then fails to connect `failures` times in a row
/// sleeps, the last time, for the first delay doubled `failures` times, cut
/// at the cap.
pub proof fn lemma_failed_cycles_delay(cfg: BridgeConfig, delay: int, failures: nat)
    ensures
        delay_after_events(cfg, delay, seq![LoopEvent::Begin] + failed_cycles(failures))
            == delay_after_failures(
            cfg.backoff_initial_ms as int,
            cfg.backoff_max_ms as int,
            failures,
        ),
    decreases failures,
{
    let begin = seq![LoopEvent::Begin];
    if failures == 0 {
        assert(begin + failed_cycles(0) =~= begin);
        assert(begin.drop_last() =~= Seq::<LoopEvent>::empty());
        assert(delay_after_events(cfg, delay, begin) == delay_after_event(
            cfg,
            delay_after_events(cfg, delay, begin.drop_last()),
            begin.last(),
        ));
    } else {
        let k = (failures - 1) as nat;
        lemma_failed_cycles_delay(cfg, delay, k);
        let before = begin + failed_cycles(k);
        let failed = before.push(LoopEvent::ConnectFailed);
        let all = failed.push(LoopEvent::Woke);
        assert(begin + failed_cycles(failures) =~= all);
        assert(all.drop_last() =~= failed);
        assert(failed.drop_last() =~= before);
        assert(delay_after_events(cfg, delay, failed) == delay_after_event(
            cfg,
            delay_after_events(cfg, delay, before),
            LoopEvent::ConnectFailed,
        ));
        assert(delay_after_events(cfg, delay, all) == delay_after_event(
            cfg,
            delay_after_events(cfg, delay, failed),
            LoopEvent::Woke,
        ));
    }
}

/// Whatever happened before, once a handshake has succeeded the next failure
/// sleeps for the first delay doubled (cut at the cap): the delay reached
/// earlier plays no part.
pub proof fn lemma_handshake_resets_backoff(
    cfg: BridgeConfig,
    delay: int,
    history: Seq<LoopEvent>,
    failure: LoopEvent,
)
    requires
        failure == LoopEvent::ConnectFailed || failure == LoopEvent::SessionEnded,
    ensures
        delay_after_events(cfg, delay, history.push(LoopEvent::Connected))
            == cfg.backoff_initial_ms,
        delay_after_events(cfg, delay, history.push(LoopEvent::Connected).push(failure))
            == next_delay(cfg.backoff_initial_ms as int, cfg.backoff_max_ms as int),
        action_after_event(
            cfg,
            delay_after_events(cfg, delay, history.push(LoopEvent::Connected)),
            failure,
        ) == (LoopAction::Sleep {
            ms: next_delay(cfg.backoff_initial_ms as int, cfg.backoff_max_ms as int) as u64,
        }),
{
    let connected = history.push(LoopEvent::Connected);
    assert(connected.drop_last() =~= history);
    assert(connected.push(failure).drop_last() =~= connected);
}

} // verus!
