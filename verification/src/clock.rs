//! The wall clock, and the timestamp of a time on it.

use vstd::prelude::*;
use std::time::{Duration, SystemTime, UNIX_EPOCH};

verus! {

#[verifier::external_type_specification]
#[verifier::external_body]
pub struct ExSystemTime(SystemTime);

/// How far a time lies after the Unix epoch, as `SystemTime::duration_since`
/// gives it; `None` for a time before the epoch.
pub uninterp spec fn epoch_offset(t: SystemTime) -> Option<Duration>;

/// The whole milliseconds in a duration, as `Duration::as_millis` gives them.
pub uninterp spec fn millis_in(d: Duration) -> u128;

/// The timestamp of a time: its whole milliseconds after the Unix epoch, cut
/// to their low 64 bits. A time before the epoch has none.
pub open spec fn stamp_at(t: SystemTime) -> Option<u64> {
    match epoch_offset(t) {
        Some(d) => Some((millis_in(d) % 0x1_0000_0000_0000_0000) as u64),
        None => None,
    }
}

/// `SystemTime::now`: the time on the system's clock. Nothing is claimed of
/// it: two calls may differ.
#[verifier::external_body]
fn system_now() -> SystemTime {
    SystemTime::now()
}

/// `SystemTime::duration_since` the Unix epoch: how far the time lies after
/// it, `None` for a time before it. The outcome depends on the time alone.
#[verifier::external_body]
fn since_unix_epoch(t: &SystemTime) -> (r: Option<Duration>)
    ensures
        r == epoch_offset(*t),
{
    t.duration_since(UNIX_EPOCH).ok()
}

/// `Duration::as_millis`: the whole milliseconds in a duration.
#[verifier::external_body]
fn whole_millis(d: &Duration) -> (ms: u128)
    ensures
        ms == millis_in(*d),
{
    d.as_millis()
}

/// The timestamp for a count of milliseconds: its low 64 bits.
pub fn timestamp_of(elapsed_ms: u128) -> (timestamp: u64)
    ensures
        timestamp == elapsed_ms % 0x1_0000_0000_0000_0000,
{
    assert((elapsed_ms as u64) == elapsed_ms % 0x1_0000_0000_0000_0000) by (bit_vector);
    #[verifier::truncate]
    (elapsed_ms as u64)
}

/// The timestamp of the time on the system's clock: its milliseconds since
/// the Unix epoch, or `None` where the clock stands before the epoch.
pub fn now_ms() -> (stamp: Option<u64>)
    ensures
        exists|t: SystemTime| stamp == #[trigger] stamp_at(t),
{
    let now = system_now();
    let stamp = match since_unix_epoch(&now) {
        Some(d) => Some(timestamp_of(whole_millis(&d))),
        None => None,
    };
    assert(stamp == stamp_at(now));
    stamp
}

} // verus!
