//! Positions on a session's timeline, in integer ticks.
//!
//! One tick is 100 nanoseconds. A playback rate is given in thousandths, and a
//! share of the timeline in millionths, so that every computation is exact
//! integer arithmetic.

use vstd::prelude::*;
use crate::command::CallError;

verus! {

/// Ticks in one second.
pub const TICKS_PER_SECOND: i64 = 10_000_000;

/// The whole timeline, in millionths.
pub const WHOLE: u32 = 1_000_000;

/// Normal playback speed, in thousandths.
pub const NORMAL_RATE: i32 = 1_000;

/// The timeline of a session as its playback source last reported it.
#[derive(Clone, Copy, Debug, PartialEq, Eq)]
pub struct Timeline {
    /// The last reported position, in ticks from the start.
    pub position: i64,
    /// The length of what is playing, in ticks, where the source knows it.
    pub duration: Option<i64>,
    /// The playback rate, in thousandths of normal speed.
    pub rate_milli: i32,
}

/// A position on the timeline.
#[derive(Clone, Copy, Debug, PartialEq, Eq)]
pub struct ClPosition {
    /// Ticks from the start. The type is wide enough for the estimate of any
    /// reported position after any time at any rate.
    pub how_much: i128,
}

/// The position that lies `millionths` of the way into `duration`, rounded
/// down to a whole tick.
pub open spec fn share_of(duration: int, millionths: int) -> int {
    duration * millionths / 1_000_000
}

/// How far playback at `rate_milli` moves in `elapsed` ticks, rounded towards
/// zero.
pub open spec fn drift(elapsed: int, rate_milli: int) -> int {
    if rate_milli >= 0 {
        elapsed * rate_milli / 1_000
    } else {
        -(elapsed * (-rate_milli) / 1_000)
    }
}

/// The absolute target of a seek to a share of the timeline: refused when the
/// share is more than the whole, and when the duration is not known, which
/// is when there is no timeline, no duration in it, or a negative one.
pub open spec fn share_target(millionths: u32, timeline: Option<Timeline>) -> Result<i64, CallError> {
    if millionths > WHOLE {
        Err(CallError::Rejected)
    } else {
        match timeline {
            Some(Timeline { duration: Some(duration), .. }) if duration >= 0 => Ok(
                share_of(duration as int, millionths as int) as i64,
            ),
            _ => Err(CallError::Rejected),
        }
    }
}

/// The position to report for a timeline: the last reported one, or, for a
/// live estimate, that position moved on by the time since the report at the
/// reported rate. There is none without a timeline.
pub open spec fn position_of(timeline: Option<Timeline>, live: bool, elapsed: u64) -> Option<ClPosition> {
    match timeline {
        Some(t) => Some(
            ClPosition {
                how_much: if live {
                    (t.position + drift(elapsed as int, t.rate_milli as int)) as i128
                } else {
                    t.position as i128
                },
            },
        ),
        None => None,
    }
}

/// A share of a duration lies within the duration.
pub proof fn lemma_share_within(duration: int, millionths: int)
    requires
        0 <= duration,
        0 <= millionths <= 1_000_000,
    ensures
        0 <= share_of(duration, millionths) <= duration,
{
    assert(0 <= duration * millionths <= duration * 1_000_000) by (nonlinear_arith)
        requires
            0 <= duration,
            0 <= millionths <= 1_000_000,
    ;
}

/// Computes the absolute target of a seek to a share of the timeline.
pub fn seek_share(millionths: u32, timeline: Option<Timeline>) -> (target: Result<i64, CallError>)
    ensures
        target == share_target(millionths, timeline),
{
    if millionths > WHOLE {
        return Err(CallError::Rejected);
    }
    match timeline {
        Some(t) => match t.duration {
            Some(duration) => {
                if duration < 0 {
                    Err(CallError::Rejected)
                } else {
                    proof {
                        lemma_share_within(duration as int, millionths as int);
                        assert(0 <= duration * millionths <= duration * 1_000_000) by (nonlinear_arith)
                            requires
                                0 <= duration,
                                0 <= millionths <= 1_000_000,
                        ;
                    }
                    let product: u128 = (duration as u128) * (millionths as u128);
                    let share: u128 = product / 1_000_000;
                    Ok(share as i64)
                }
            },
            None => Err(CallError::Rejected),
        },
        None => Err(CallError::Rejected),
    }
}

/// Computes the position to report for a timeline. `elapsed` is the time in
/// ticks since the source reported the timeline.
pub fn position_at(timeline: Option<Timeline>, live: bool, elapsed: u64) -> (position: Option<ClPosition>)
    ensures
        position == position_of(timeline, live, elapsed),
{
    match timeline {
        Some(t) => {
            if live {
                let forward: bool = t.rate_milli >= 0;
                let speed: u128 = if forward {
                    t.rate_milli as u128
                } else {
                    (-(t.rate_milli as i64)) as u128
                };
                assert(elapsed * speed <= 0xffff_ffff_ffff_ffff * 0x8000_0000) by (nonlinear_arith)
                    requires
                        0 <= elapsed <= 0xffff_ffff_ffff_ffff,
                        0 <= speed <= 0x8000_0000,
                ;
                let moved: u128 = (elapsed as u128) * speed / 1_000;
                let how_much: i128 = if forward {
                    t.position as i128 + moved as i128
                } else {
                    t.position as i128 - moved as i128
                };
                Some(ClPosition { how_much })
            } else {
                Some(ClPosition { how_much: t.position as i128 })
            }
        },
        None => None,
    }
}

} // verus!
