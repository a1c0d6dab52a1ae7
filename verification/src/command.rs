//! Transport commands and the ways a call can be refused.

use vstd::prelude::*;
use crate::status::RepeatMode;

verus! {

/// Why a call was refused before anything was forwarded to the session.
#[derive(Clone, Copy, Debug, PartialEq, Eq, Structural)]
pub enum CallError {
    /// The facade's session is no longer in the registry.
    Gone,
    /// The caller's input is not acceptable.
    Rejected,
}

/// A transport command to forward to the session's playback source. The
/// source answers each with whether it accepted the command.
#[derive(Clone, Copy, Debug, PartialEq, Eq, Structural)]
pub enum Command {
    Play,
    Pause,
    PlayPause,
    Stop,
    Next,
    Previous,
    SetShuffle(bool),
    SetRepeat(RepeatMode),
    /// Move by this many ticks relative to the current position.
    Seek(i64),
    /// Move to this position, in ticks from the start.
    SetPosition(i64),
}

} // verus!
