//! The per-guild session orchestrator: one optional voice connection and an
//! ordered playback queue, driven by the commands `join`, `play`, `leave`,
//! `current`, `skip` and `stop`.
//!
//! The surrounding application performs the actual transport work (connect,
//! source resolution, audio). This module makes every decision: which
//! preconditions hold, whether a join is needed, and how the session state
//! changes on each outcome the transport reports back.

use vstd::prelude::*;
use crate::CommandError;

verus! {

/// What the head of the queue is doing, as last reported by the transport.
#[derive(Clone, Copy, Debug, PartialEq, Eq, Structural)]
pub enum PlayMode {
    Playing,
    Paused,
    Stopped,
}

/// One playback request: a source locator plus whatever metadata the
/// transport has resolved so far.
#[derive(Debug)]
pub struct Track {
    pub source_uri: String,
    pub title: Option<String>,
    pub duration_secs: Option<u64>,
}

/// A locator is accepted when it begins with the `http` scheme prefix.
pub open spec fn valid_play_url(s: Seq<char>) -> bool {
    s.len() >= 4 && s[0] == 'h' && s[1] == 't' && s[2] == 't' && s[3] == 'p'
}

impl Track {
    /// A track is well formed when its locator carries the accepted prefix.
    pub open spec fn wf(self) -> bool {
        valid_play_url(self.source_uri@)
    }
}

/// The mathematical state of one guild's session.
pub ghost struct SessionView {
    pub guild_id: u64,
    pub connection: Option<u64>,
    pub queue: Seq<Track>,
    pub mode: PlayMode,
}

impl SessionView {
    /// Disconnected sessions hold no queue and report nothing as playing;
    /// every queued track carries an accepted locator.
    pub open spec fn wf(self) -> bool {
        &&& self.connection is None ==> self.queue.len() == 0
        &&& self.queue.len() == 0 ==> self.mode == PlayMode::Stopped
        &&& forall|i: int| 0 <= i < self.queue.len() ==> (#[trigger] self.queue[i]).wf()
    }

    pub open spec fn connected(self) -> bool {
        self.connection is Some
    }
}

/// The state of a session that has never seen a connection.
pub open spec fn fresh_view(guild_id: u64) -> SessionView {
    SessionView { guild_id, connection: None, queue: Seq::empty(), mode: PlayMode::Stopped }
}

/// A `play` must first join exactly when the session holds no connection;
/// a session already connected anywhere is reused as it stands.
pub open spec fn needs_join(v: SessionView) -> bool {
    v.connection is None
}

/// A successful connect stores the channel and touches nothing else.
pub open spec fn connect_step(v: SessionView, channel: u64) -> SessionView {
    SessionView { connection: Some(channel), ..v }
}

/// Enqueueing appends at the tail; into an empty queue, the track starts
/// playing, otherwise the current track is not disturbed.
pub open spec fn enqueue_step(v: SessionView, t: Track) -> SessionView {
    SessionView {
        queue: v.queue.push(t),
        mode: if v.queue.len() == 0 {
            PlayMode::Playing
        } else {
            v.mode
        },
        ..v
    }
}

/// A skip advances past the head; the next track, if any, plays.
pub open spec fn skip_step(v: SessionView) -> SessionView {
    SessionView {
        queue: v.queue.drop_first(),
        mode: if v.queue.len() > 1 {
            PlayMode::Playing
        } else {
            PlayMode::Stopped
        },
        ..v
    }
}

/// A stop halts playback and empties the queue but keeps the connection.
pub open spec fn stop_step(v: SessionView) -> SessionView {
    SessionView { queue: Seq::empty(), mode: PlayMode::Stopped, ..v }
}

/// A leave tears the connection down; the queue does not survive it.
pub open spec fn leave_step(v: SessionView) -> SessionView {
    SessionView { connection: None, queue: Seq::empty(), mode: PlayMode::Stopped, ..v }
}

/// One guild's session: the single owner of that guild's connection handle
/// and queue.
#[derive(Debug)]
pub struct GuildSession {
    pub guild_id: u64,
    pub connection: Option<u64>,
    pub queue: Vec<Track>,
    pub mode: PlayMode,
}

impl View for GuildSession {
    type V = SessionView;

    open spec fn view(&self) -> SessionView {
        SessionView {
            guild_id: self.guild_id,
            connection: self.connection,
            queue: self.queue@,
            mode: self.mode,
        }
    }
}

/// The outcome of a `current` inquiry; an absent source is a normal state,
/// not an error.
pub enum CurrentReport<'a> {
    NotInChannel,
    NoCurrentSource,
    Current(&'a Track),
}

/// The outcome of a `skip`; skipping when nothing plays is a no-op, not an
/// error. A successful skip reports the new queue length.
#[derive(Clone, Copy, Debug, PartialEq, Eq, Structural)]
pub enum SkipReport {
    NotInChannel,
    NothingPlaying,
    Skipped(usize),
}

impl GuildSession {
    pub open spec fn wf(self) -> bool {
        self@.wf()
    }

    /// A session starts disconnected with an empty queue.
    pub fn new(guild_id: u64) -> (s: Self)
        ensures
            s@ == fresh_view(guild_id),
            s.wf(),
    {
        GuildSession { guild_id, connection: None, queue: Vec::new(), mode: PlayMode::Stopped }
    }

    /// The `join` decision: the target channel is the requester's current
    /// voice channel; a requester in no channel is refused and nothing is
    /// touched.
    pub fn join_target(&self, user_channel: Option<u64>) -> (r: Result<u64, CommandError>)
        ensures
            match r {
                Ok(c) => user_channel == Some(c),
                Err(e) => e == CommandError::NotInVoiceChannel && user_channel is None,
            },
    {
        match user_channel {
            Some(c) => Ok(c),
            None => Err(CommandError::NotInVoiceChannel),
        }
    }

    /// Records a connect the transport completed, idempotently replacing any
    /// prior connection; the queue is not touched.
    pub fn on_connected(&mut self, channel: u64)
        requires
            old(self).wf(),
        ensures
            final(self)@ == connect_step(old(self)@, channel),
            final(self).wf(),
    {
        self.connection = Some(channel);
    }

    /// The `play` join decision: a requester in no channel is refused;
    /// otherwise a disconnected session must first join the requester's
    /// channel, and a connected one is reused wherever it is.
    pub fn play_connect_target(&self, user_channel: Option<u64>) -> (r: Result<
        Option<u64>,
        CommandError,
    >)
        ensures
            match r {
                Ok(target) => user_channel is Some && match target {
                    Some(c) => needs_join(self@) && user_channel == Some(c),
                    None => !needs_join(self@),
                },
                Err(e) => e == CommandError::NotInVoiceChannel && user_channel is None,
            },
    {
        match user_channel {
            None => Err(CommandError::NotInVoiceChannel),
            Some(c) => {
                if self.connection.is_none() {
                    Ok(Some(c))
                } else {
                    Ok(None)
                }
            },
        }
    }

    /// The `play` preconditions, checked in order with the first failure
    /// winning: exactly one argument, an accepted locator scheme, then the
    /// requester's channel. On success hands back the locator together with
    /// the join decision.
    pub fn play_request(&self, args: &Vec<String>, user_channel: Option<u64>) -> (r: Result<
        (String, Option<u64>),
        CommandError,
    >)
        ensures
            match r {
                Ok(p) => {
                    &&& args@.len() == 1
                    &&& p.0@ == args@[0]@
                    &&& valid_play_url(p.0@)
                    &&& user_channel is Some
                    &&& match p.1 {
                        Some(c) => needs_join(self@) && user_channel == Some(c),
                        None => !needs_join(self@),
                    }
                },
                Err(e) => {
                    ||| (e == CommandError::InvalidArgument && (args@.len() != 1
                        || !valid_play_url(args@[0]@)))
                    ||| (e == CommandError::NotInVoiceChannel && args@.len() == 1
                        && valid_play_url(args@[0]@) && user_channel is None)
                },
            },
    {
        let url = match validate_play_args(args) {
            Ok(url) => url,
            Err(e) => {
                return Err(e);
            },
        };
        match self.play_connect_target(user_channel) {
            Ok(target) => Ok((url, target)),
            Err(e) => Err(e),
        }
    }

    /// Appends a resolved track at the tail of the queue and reports its
    /// one-based position; a track entering an empty queue starts playing,
    /// and a playing track is never disturbed.
    pub fn enqueue_track(&mut self, track: Track) -> (pos: usize)
        requires
            old(self).wf(),
            old(self)@.connection is Some,
            track.wf(),
        ensures
            final(self)@ == enqueue_step(old(self)@, track),
            final(self).wf(),
            pos == final(self)@.queue.len(),
    {
        if self.queue.len() == 0 {
            self.mode = PlayMode::Playing;
        }
        self.queue.push(track);
        assert forall|i: int| 0 <= i < self@.queue.len() implies (#[trigger] self@.queue[i]).wf() by {
            if i < self@.queue.len() - 1 {
                assert(self@.queue[i] == old(self)@.queue[i]);
            }
        }
        self.queue.len()
    }

    /// The `leave` command: tears down an active connection and discards the
    /// queue; without one it reports that no session is active.
    pub fn leave(&mut self) -> (r: Result<(), CommandError>)
        requires
            old(self).wf(),
        ensures
            final(self).wf(),
            match r {
                Ok(()) => old(self)@.connected() && final(self)@ == leave_step(old(self)@),
                Err(e) => e == CommandError::NoActiveSession && !old(self)@.connected()
                    && final(self)@ == old(self)@,
            },
    {
        if self.connection.is_none() {
            return Err(CommandError::NoActiveSession);
        }
        self.connection = None;
        self.queue.clear();
        self.mode = PlayMode::Stopped;
        Ok(())
    }

    /// The `current` inquiry: a snapshot of the head track when connected
    /// and the queue is nonempty; otherwise the fitting empty report.
    pub fn current(&self) -> (r: CurrentReport<'_>)
        requires
            self.wf(),
        ensures
            match r {
                CurrentReport::NotInChannel => !self@.connected(),
                CurrentReport::NoCurrentSource => self@.connected() && self@.queue.len() == 0,
                CurrentReport::Current(t) => self@.connected() && self@.queue.len() > 0 && *t
                    == self@.queue[0],
            },
    {
        if self.connection.is_none() {
            CurrentReport::NotInChannel
        } else if self.queue.len() == 0 {
            CurrentReport::NoCurrentSource
        } else {
            CurrentReport::Current(&self.queue[0])
        }
    }

    /// The `skip` command: advances past a playing head track and reports
    /// the new queue length; with nothing playing it is a no-op.
    pub fn skip(&mut self) -> (r: SkipReport)
        requires
            old(self).wf(),
        ensures
            final(self).wf(),
            match r {
                SkipReport::NotInChannel => !old(self)@.connected() && final(self)@ == old(self)@,
                SkipReport::NothingPlaying => old(self)@.connected() && (old(self)@.queue.len()
                    == 0 || old(self)@.mode != PlayMode::Playing) && final(self)@ == old(self)@,
                SkipReport::Skipped(n) => old(self)@.connected() && old(self)@.queue.len() > 0
                    && old(self)@.mode == PlayMode::Playing && final(self)@ == skip_step(
                    old(self)@,
                ) && n == final(self)@.queue.len(),
            },
    {
        if self.connection.is_none() {
            return SkipReport::NotInChannel;
        }
        if self.queue.len() == 0 {
            return SkipReport::NothingPlaying;
        }
        if self.mode != PlayMode::Playing {
            return SkipReport::NothingPlaying;
        }
        self.queue.remove(0);
        if self.queue.len() == 0 {
            self.mode = PlayMode::Stopped;
        } else {
            self.mode = PlayMode::Playing;
        }
        proof {
            assert(self@.queue =~= old(self)@.queue.drop_first());
        }
        SkipReport::Skipped(self.queue.len())
    }

    /// The `stop` command: halts playback and empties the queue while the
    /// connection stays up; without a connection it reports no session.
    pub fn stop(&mut self) -> (r: Result<(), CommandError>)
        requires
            old(self).wf(),
        ensures
            final(self).wf(),
            match r {
                Ok(()) => old(self)@.connected() && final(self)@ == stop_step(old(self)@),
                Err(e) => e == CommandError::NoActiveSession && !old(self)@.connected()
                    && final(self)@ == old(self)@,
            },
    {
        if self.connection.is_none() {
            return Err(CommandError::NoActiveSession);
        }
        self.queue.clear();
        self.mode = PlayMode::Stopped;
        Ok(())
    }

    /// Reconciles the head track's mode with what the transport reports.
    pub fn set_play_mode(&mut self, mode: PlayMode)
        requires
            old(self).wf(),
            old(self)@.connected(),
            old(self)@.queue.len() > 0,
        ensures
            final(self).wf(),
            final(self)@ == (SessionView { mode, ..old(self)@ }),
    {
        self.mode = mode;
    }
}

/// Validates the arguments of `play`: exactly one token, carrying the
/// accepted locator prefix; anything else is an invalid argument.
pub fn validate_play_args(args: &Vec<String>) -> (r: Result<String, CommandError>)
    ensures
        match r {
            Ok(url) => args@.len() == 1 && url@ == args@[0]@ && valid_play_url(url@),
            Err(e) => e == CommandError::InvalidArgument && (args@.len() != 1 || !valid_play_url(
                args@[0]@,
            )),
        },
{
    if args.len() != 1 {
        return Err(CommandError::InvalidArgument);
    }
    if !has_http_prefix(args[0].as_str()) {
        return Err(CommandError::InvalidArgument);
    }
    Ok(args[0].clone())
}

/// Whether a locator begins with the `http` scheme prefix.
pub fn has_http_prefix(s: &str) -> (r: bool)
    ensures
        r == valid_play_url(s@),
{
    if s.unicode_len() < 4 {
        return false;
    }
    s.get_char(0) == 'h' && s.get_char(1) == 't' && s.get_char(2) == 't' && s.get_char(3) == 'p'
}

} // verus!
