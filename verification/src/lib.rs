//! Per-guild voice session orchestration for a chat bot.
//!
//! A textual command either triggers a pure computation (`math::multiply`)
//! or drives one guild's voice-playback session: a state machine owning a
//! single optional connection and an ordered playback queue
//! (`session::GuildSession`), with sessions looked up per guild in a
//! `registry::SessionRegistry`. All network and audio work is performed by
//! the surrounding application; the library makes every decision and tracks
//! every state change.

use vstd::prelude::*;

pub mod laws;
pub mod math;
pub mod registry;
pub mod session;

verus! {

/// The errors a command can end in. `InvalidArgument` is user-correctable
/// input; `NotInVoiceChannel` and `NoActiveSession` are unmet preconditions;
/// the rest report failures of the voice transport.
#[derive(Clone, Copy, Debug, PartialEq, Eq, Structural)]
pub enum CommandError {
    InvalidArgument,
    NotInVoiceChannel,
    NoActiveSession,
    ConnectionFailed,
    SourceResolutionFailed,
    Timeout,
}

} // verus!
