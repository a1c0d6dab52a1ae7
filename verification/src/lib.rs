//! Session manager and event arbitration for media playback sessions.
//!
//! The registry tracks the live sessions of a platform's media-control
//! subsystem, picks the one the user is engaging with, and turns pushed
//! notifications into a pollable, time-boxed event stream. Talking to the
//! platform is left to the caller: every operation here takes what the
//! platform reported as plain values and answers with the next state and the
//! command to forward.

pub mod status;
pub mod events;
pub mod command;
pub mod timeline;
pub mod model;
pub mod lemmas;
pub mod laws;
pub mod session;
pub mod clplayer;
pub mod clplayermanager;
