//! Canonical values for playback state and repeat mode.

use vstd::prelude::*;

verus! {

/// Playback state of one session.
#[derive(Clone, Copy, Debug, PartialEq, Eq, Structural)]
pub enum PlaybackStatus {
    Closed,
    Opened,
    Changing,
    Stopped,
    Playing,
    Paused,
}

impl PlaybackStatus {
    /// The integer code under which the platform reports this state.
    pub open spec fn spec_code(self) -> int {
        match self {
            PlaybackStatus::Closed => 0,
            PlaybackStatus::Opened => 1,
            PlaybackStatus::Changing => 2,
            PlaybackStatus::Stopped => 3,
            PlaybackStatus::Playing => 4,
            PlaybackStatus::Paused => 5,
        }
    }

    /// The state that a reported code stands for, if it is one of the six
    /// canonical codes.
    pub open spec fn spec_from_code(code: int) -> Option<PlaybackStatus> {
        if code == 0 {
            Some(PlaybackStatus::Closed)
        } else if code == 1 {
            Some(PlaybackStatus::Opened)
        } else if code == 2 {
            Some(PlaybackStatus::Changing)
        } else if code == 3 {
            Some(PlaybackStatus::Stopped)
        } else if code == 4 {
            Some(PlaybackStatus::Playing)
        } else if code == 5 {
            Some(PlaybackStatus::Paused)
        } else {
            None
        }
    }

    /// The name of this state.
    pub open spec fn spec_label(self) -> Seq<char> {
        match self {
            PlaybackStatus::Closed => "Closed"@,
            PlaybackStatus::Opened => "Opened"@,
            PlaybackStatus::Changing => "Changing"@,
            PlaybackStatus::Stopped => "Stopped"@,
            PlaybackStatus::Playing => "Playing"@,
            PlaybackStatus::Paused => "Paused"@,
        }
    }

    pub fn code(self) -> (c: i32)
        ensures
            c == self.spec_code(),
    {
        match self {
            PlaybackStatus::Closed => 0,
            PlaybackStatus::Opened => 1,
            PlaybackStatus::Changing => 2,
            PlaybackStatus::Stopped => 3,
            PlaybackStatus::Playing => 4,
            PlaybackStatus::Paused => 5,
        }
    }

    pub fn from_code(code: i32) -> (status: Option<PlaybackStatus>)
        ensures
            status == Self::spec_from_code(code as int),
    {
        match code {
            0 => Some(PlaybackStatus::Closed),
            1 => Some(PlaybackStatus::Opened),
            2 => Some(PlaybackStatus::Changing),
            3 => Some(PlaybackStatus::Stopped),
            4 => Some(PlaybackStatus::Playing),
            5 => Some(PlaybackStatus::Paused),
            _ => None,
        }
    }

    pub fn label(self) -> (name: String)
        ensures
            name@ == self.spec_label(),
    {
        match self {
            PlaybackStatus::Closed => String::from_str("Closed"),
            PlaybackStatus::Opened => String::from_str("Opened"),
            PlaybackStatus::Changing => String::from_str("Changing"),
            PlaybackStatus::Stopped => String::from_str("Stopped"),
            PlaybackStatus::Playing => String::from_str("Playing"),
            PlaybackStatus::Paused => String::from_str("Paused"),
        }
    }
}

/// Every state is recovered from its own code, and only the six canonical
/// codes stand for a state.
pub proof fn law_status_code_round_trip(status: PlaybackStatus, code: int)
    ensures
        PlaybackStatus::spec_from_code(status.spec_code()) == Some(status),
        PlaybackStatus::spec_from_code(code) is Some <==> 0 <= code <= 5,
        PlaybackStatus::spec_from_code(code) matches Some(s) ==> s.spec_code() == code,
{
}

/// How a session repeats what it plays.
#[derive(Clone, Copy, Debug, PartialEq, Eq, Structural)]
pub enum RepeatMode {
    /// No repetition.
    Off,
    /// The current track is repeated.
    Track,
    /// The whole list is repeated.
    List,
}

impl RepeatMode {
    /// The name of this mode.
    pub open spec fn spec_label(self) -> Seq<char> {
        match self {
            RepeatMode::Off => "None"@,
            RepeatMode::Track => "Track"@,
            RepeatMode::List => "List"@,
        }
    }

    /// The mode that a name stands for, if it names one.
    pub open spec fn spec_from_label(name: Seq<char>) -> Option<RepeatMode> {
        if name == "None"@ {
            Some(RepeatMode::Off)
        } else if name == "Track"@ {
            Some(RepeatMode::Track)
        } else if name == "List"@ {
            Some(RepeatMode::List)
        } else {
            None
        }
    }

    pub fn label(self) -> (name: String)
        ensures
            name@ == self.spec_label(),
    {
        match self {
            RepeatMode::Off => String::from_str("None"),
            RepeatMode::Track => String::from_str("Track"),
            RepeatMode::List => String::from_str("List"),
        }
    }

    pub fn from_label(name: &String) -> (mode: Option<RepeatMode>)
        ensures
            mode == Self::spec_from_label(name@),
    {
        if *name == String::from_str("None") {
            Some(RepeatMode::Off)
        } else if *name == String::from_str("Track") {
            Some(RepeatMode::Track)
        } else if *name == String::from_str("List") {
            Some(RepeatMode::List)
        } else {
            None
        }
    }
}

/// Every mode is recovered from its own name, and a name that stands for a
/// mode is that mode's name.
pub proof fn law_repeat_label_round_trip(mode: RepeatMode, name: Seq<char>)
    ensures
        RepeatMode::spec_from_label(mode.spec_label()) == Some(mode),
        RepeatMode::spec_from_label(name) matches Some(m) ==> m.spec_label() == name,
{
    reveal_strlit("None");
    reveal_strlit("Track");
    reveal_strlit("List");
    assert("None"@.len() == 4 && "Track"@.len() == 5 && "List"@.len() == 4);
    assert("None"@[0] == 'N' && "List"@[0] == 'L');
}

} // verus!
