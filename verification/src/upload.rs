//! What to do with a status that the remote service reports for an
//! uploaded object.

use vstd::prelude::*;
use crate::remote::RemoteState;

verus! {

/// Longest time, in nanoseconds, that an upload may take to become active:
/// 300 seconds.
pub const UPLOAD_TIMEOUT_NANOS: u128 = 300_000_000_000;

/// Pause between two status checks, in milliseconds: 2 seconds.
pub const POLL_INTERVAL_MILLIS: u64 = 2_000;

/// The pause between two status checks, in nanoseconds.
pub open spec fn poll_interval_nanos() -> int {
    POLL_INTERVAL_MILLIS as int * 1_000_000
}

/// Decision after one status check.
#[derive(Clone, Copy, Debug, PartialEq, Eq, Structural)]
pub enum PollVerdict {
    /// The object is active: the upload has succeeded.
    Ready,
    /// The service failed to process the object.
    Failed,
    /// Not active yet: wait for the interval and check again.
    Retry,
    /// Not active yet, and the time allowed is over.
    TimedOut,
}

/// The decision for a reported state, `elapsed` nanoseconds after the
/// upload was submitted. An active or failed object decides at once,
/// whatever the time; every other state, and none at all, means waiting for
/// as long as the time allowed has not been exceeded.
pub open spec fn verdict_for(state: Option<RemoteState>, elapsed: int) -> PollVerdict {
    if state == Some(RemoteState::Active) {
        PollVerdict::Ready
    } else if state == Some(RemoteState::Failed) {
        PollVerdict::Failed
    } else if elapsed > UPLOAD_TIMEOUT_NANOS {
        PollVerdict::TimedOut
    } else {
        PollVerdict::Retry
    }
}

/// Decides what follows a status check.
pub fn poll_verdict(state: Option<RemoteState>, elapsed_nanos: u128) -> (verdict: PollVerdict)
    ensures
        verdict == verdict_for(state, elapsed_nanos as int),
{
    match state {
        Some(RemoteState::Active) => PollVerdict::Ready,
        Some(RemoteState::Failed) => PollVerdict::Failed,
        _ => {
            if elapsed_nanos > UPLOAD_TIMEOUT_NANOS {
                PollVerdict::TimedOut
            } else {
                PollVerdict::Retry
            }
        },
    }
}

/// An object that is never reported active or failed is waited for exactly
/// as long as the time allowed is not exceeded: a check within the first 300
/// seconds leads to another, the first one after them to a timeout.
pub proof fn law_unfinished_upload_times_out(state: Option<RemoteState>, elapsed: int)
    requires
        state != Some(RemoteState::Active),
        state != Some(RemoteState::Failed),
    ensures
        elapsed <= 300_000_000_000 ==> verdict_for(state, elapsed) == PollVerdict::Retry,
        elapsed > 300_000_000_000 ==> verdict_for(state, elapsed) == PollVerdict::TimedOut,
{
}

/// On a clock that advances only by the pauses between checks, the check
/// after `pauses` pauses leads to another one as long as `pauses` is at most
/// 150, and to a timeout from then on: 150 pauses of 2 seconds fill the 300
/// seconds allowed.
pub proof fn law_timeout_after_150_pauses(state: Option<RemoteState>, pauses: nat)
    requires
        state != Some(RemoteState::Active),
        state != Some(RemoteState::Failed),
    ensures
        pauses <= 150 ==> verdict_for(state, pauses * poll_interval_nanos())
            == PollVerdict::Retry,
        pauses > 150 ==> verdict_for(state, pauses * poll_interval_nanos())
            == PollVerdict::TimedOut,
{
    assert(poll_interval_nanos() == 2_000_000_000);
    assert(pauses * poll_interval_nanos() == pauses * 2_000_000_000);
}

} // verus!
