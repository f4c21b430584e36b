//! The playback state store.
//!
//! One tab owns at most one playback session: the episode bound to the audio
//! transport, its immutable metadata snapshot, and the mutable position. The
//! store is the only writer of that state. Transport work (attaching the audio
//! element, play, pause, setting its clock) is returned to the caller as
//! [`TransportCommand`] values; the surrounding application performs them and
//! feeds the transport's clock back in through [`PlayerStore::sampler_tick`].
//!
//! Every session start bumps a session-identity token. A sampler captures the
//! token at its start; a tick whose captured token no longer matches the
//! store's current token is discarded, so a stale sampler can never write
//! into a newer session's state.

use vstd::prelude::*;
use crate::digits::{format_position, hms_format};

verus! {

/// The metadata snapshot a list view hands over when it starts playback.
pub struct SessionMetadata {
    pub episode_id: i32,
    pub source_url: String,
    pub title: String,
    pub artwork_url: String,
    pub duration_seconds: u64,
    /// Prior listen progress; playback resumes there instead of at zero.
    pub resume_offset_seconds: Option<u64>,
}

/// The currently playing episode as the views read it back.
pub struct PlaybackSession {
    pub episode_id: i32,
    pub source_url: String,
    pub title: String,
    pub artwork_url: String,
    pub duration_seconds: u64,
    pub position_seconds: u64,
    /// The `HH:MM:SS` rendering of `position_seconds`, recomputed on every
    /// position change and never drifting from it.
    pub formatted_position: String,
    pub is_playing: bool,
}

/// A command for the underlying audio transport, performed by the caller.
pub enum TransportCommand {
    /// Release the current audio resource and stop its sampler.
    Detach,
    /// Bind the audio resource to a source and position its clock.
    Attach { source_url: String, position_seconds: u64 },
    Play,
    Pause,
    /// Move the transport clock.
    SetPosition { position_seconds: u64 },
}

/// The store owning the playback session and the transport binding.
pub struct PlayerStore {
    pub session: Option<PlaybackSession>,
    /// Identity of the most recently started session; grows with every start.
    pub session_token: u64,
    /// Token of the one running sampler, if a session is bound.
    pub sampler_token: Option<u64>,
}

/// A seek target clamped into `[0, duration]`.
pub open spec fn clamped_position(target: int, duration: int) -> int {
    if target < 0 {
        0
    } else if target > duration {
        duration
    } else {
        target
    }
}

/// Where a fresh session starts: the resume offset, if any, clamped to the
/// episode duration.
pub open spec fn start_position(m: SessionMetadata) -> int {
    clamped_position(
        match m.resume_offset_seconds {
            Some(offset) => offset as int,
            None => 0,
        },
        m.duration_seconds as int,
    )
}

impl PlaybackSession {
    /// The session invariant: the position stays within the episode and the
    /// rendered clock always matches it.
    pub open spec fn wf(self) -> bool {
        &&& self.position_seconds <= self.duration_seconds
        &&& self.formatted_position@ == hms_format(self.position_seconds as nat)
    }
}

/// How one `start_session` call moves the store: the old binding is gone, a
/// fresh session with a fresh identity token holds the given metadata, its
/// position is the clamped resume offset, and the one running sampler is the
/// new session's.
pub open spec fn start_session_transition(
    pre: PlayerStore,
    post: PlayerStore,
    m: SessionMetadata,
) -> bool {
    &&& post.session matches Some(s) && {
        &&& s.episode_id == m.episode_id
        &&& s.source_url == m.source_url
        &&& s.title == m.title
        &&& s.artwork_url == m.artwork_url
        &&& s.duration_seconds == m.duration_seconds
        &&& s.position_seconds == start_position(m)
        &&& s.formatted_position@ == hms_format(start_position(m) as nat)
        &&& s.is_playing == true
    }
    &&& post.session_token == pre.session_token + 1
    &&& post.sampler_token == Some(post.session_token)
}

impl PlayerStore {
    /// The store invariant: a bound session is well formed, and exactly the
    /// current session's sampler is running — one sampler when a session is
    /// bound, none otherwise.
    pub open spec fn wf(self) -> bool {
        &&& (self.session matches Some(s) ==> s.wf())
        &&& (self.session is Some ==> self.sampler_token == Some(self.session_token))
        &&& (self.session is None ==> self.sampler_token is None)
    }

    /// A store with nothing loaded.
    pub fn new() -> (store: PlayerStore)
        ensures
            store.wf(),
            store.session is None,
            store.sampler_token is None,
            store.session_token == 0,
    {
        PlayerStore { session: None, session_token: 0, sampler_token: None }
    }

    /// Tears down any existing binding and installs a new session for the
    /// given episode, playing from the clamped resume offset. The returned
    /// commands put the old teardown strictly before the new attachment.
    pub fn start_session(&mut self, m: SessionMetadata) -> (cmds: Vec<TransportCommand>)
        requires
            old(self).wf(),
            old(self).session_token < u64::MAX,
        ensures
            final(self).wf(),
            start_session_transition(*old(self), *final(self), m),
            old(self).session is Some ==> cmds@ =~= seq![
                TransportCommand::Detach,
                TransportCommand::Attach {
                    source_url: final(self).session->Some_0.source_url,
                    position_seconds: start_position(m) as u64,
                },
                TransportCommand::Play,
            ],
            old(self).session is None ==> cmds@ =~= seq![
                TransportCommand::Attach {
                    source_url: final(self).session->Some_0.source_url,
                    position_seconds: start_position(m) as u64,
                },
                TransportCommand::Play,
            ],
    {
        let mut cmds: Vec<TransportCommand> = Vec::new();
        if self.session.is_some() {
            cmds.push(TransportCommand::Detach);
        }
        let offset = match m.resume_offset_seconds {
            Some(offset) => offset,
            None => 0,
        };
        let position = if offset > m.duration_seconds {
            m.duration_seconds
        } else {
            offset
        };
        let formatted = format_position(position);
        let attach_url = m.source_url.clone();
        self.session = Some(PlaybackSession {
            episode_id: m.episode_id,
            source_url: m.source_url,
            title: m.title,
            artwork_url: m.artwork_url,
            duration_seconds: m.duration_seconds,
            position_seconds: position,
            formatted_position: formatted,
            is_playing: true,
        });
        self.session_token = self.session_token + 1;
        self.sampler_token = Some(self.session_token);
        cmds.push(TransportCommand::Attach { source_url: attach_url, position_seconds: position });
        cmds.push(TransportCommand::Play);
        cmds
    }

    /// Flips between playing and paused, answering the matching transport
    /// command; with no session bound this is a no-op, not an error.
    pub fn toggle_playback(&mut self) -> (cmd: Option<TransportCommand>)
        requires
            old(self).wf(),
        ensures
            final(self).wf(),
            old(self).session is None ==> *final(self) == *old(self) && cmd is None,
            old(self).session matches Some(s) ==> {
                &&& final(self).session matches Some(t)
                &&& t == (PlaybackSession { is_playing: !s.is_playing, ..s })
                &&& final(self).session_token == old(self).session_token
                &&& final(self).sampler_token == old(self).sampler_token
                &&& cmd == Some(if s.is_playing { TransportCommand::Pause } else { TransportCommand::Play })
            },
    {
        match self.session.take() {
            None => None,
            Some(mut sess) => {
                let was_playing = sess.is_playing;
                sess.is_playing = !was_playing;
                self.session = Some(sess);
                if was_playing {
                    Some(TransportCommand::Pause)
                } else {
                    Some(TransportCommand::Play)
                }
            }
        }
    }

    /// Moves playback to the target, clamped into `[0, duration]`, updating
    /// the position and its rendered clock synchronously; with no session
    /// bound this is a no-op.
    pub fn seek(&mut self, target_seconds: i64) -> (cmd: Option<TransportCommand>)
        requires
            old(self).wf(),
        ensures
            final(self).wf(),
            old(self).session is None ==> *final(self) == *old(self) && cmd is None,
            old(self).session matches Some(s) ==> {
                let new_pos = clamped_position(target_seconds as int, s.duration_seconds as int);
                &&& final(self).session matches Some(t)
                &&& t.position_seconds == new_pos
                &&& t.formatted_position@ == hms_format(new_pos as nat)
                &&& t == (PlaybackSession {
                    position_seconds: t.position_seconds,
                    formatted_position: t.formatted_position,
                    ..s
                })
                &&& final(self).session_token == old(self).session_token
                &&& final(self).sampler_token == old(self).sampler_token
                &&& cmd == Some(TransportCommand::SetPosition { position_seconds: new_pos as u64 })
            },
    {
        match self.session.take() {
            None => None,
            Some(mut sess) => {
                let new_pos: u64 = if target_seconds < 0 {
                    0
                } else {
                    let target = target_seconds as u64;
                    if target > sess.duration_seconds {
                        sess.duration_seconds
                    } else {
                        target
                    }
                };
                sess.position_seconds = new_pos;
                sess.formatted_position = format_position(new_pos);
                self.session = Some(sess);
                Some(TransportCommand::SetPosition { position_seconds: new_pos })
            }
        }
    }

    /// Skips ahead by the fixed 15-second increment: exactly a seek to
    /// `position + 15`, so the result clamps to the episode duration.
    pub fn skip_forward(&mut self) -> (cmd: Option<TransportCommand>)
        requires
            old(self).wf(),
        ensures
            final(self).wf(),
            old(self).session is None ==> *final(self) == *old(self) && cmd is None,
            old(self).session matches Some(s) ==> {
                let new_pos = clamped_position(s.position_seconds + 15, s.duration_seconds as int);
                &&& final(self).session matches Some(t)
                &&& t.position_seconds == new_pos
                &&& t.formatted_position@ == hms_format(new_pos as nat)
                &&& t == (PlaybackSession {
                    position_seconds: t.position_seconds,
                    formatted_position: t.formatted_position,
                    ..s
                })
                &&& final(self).session_token == old(self).session_token
                &&& final(self).sampler_token == old(self).sampler_token
                &&& cmd == Some(TransportCommand::SetPosition { position_seconds: new_pos as u64 })
            },
    {
        match self.session.take() {
            None => None,
            Some(mut sess) => {
                let new_pos: u64 = if sess.duration_seconds - sess.position_seconds < 15 {
                    sess.duration_seconds
                } else {
                    sess.position_seconds + 15
                };
                sess.position_seconds = new_pos;
                sess.formatted_position = format_position(new_pos);
                self.session = Some(sess);
                Some(TransportCommand::SetPosition { position_seconds: new_pos })
            }
        }
    }

    /// Unbinds the transport and clears the session; its sampler stops with
    /// it. The identity token is kept, so a tick from the stopped sampler
    /// still finds no session to write to.
    pub fn clear_session(&mut self) -> (cmd: Option<TransportCommand>)
        requires
            old(self).wf(),
        ensures
            final(self).wf(),
            final(self).session is None,
            final(self).sampler_token is None,
            final(self).session_token == old(self).session_token,
            cmd == (if old(self).session is Some { Some(TransportCommand::Detach) } else { None::<TransportCommand> }),
    {
        let had_session = self.session.is_some();
        self.session = None;
        self.sampler_token = None;
        if had_session {
            Some(TransportCommand::Detach)
        } else {
            None
        }
    }

    /// One sampler tick: the transport's clock reading, pushed into the store
    /// by the sampler that captured `captured_token` at its start. A tick
    /// whose token no longer matches the current session identity — or that
    /// finds no session — changes nothing. A current tick mirrors the clock
    /// into the position, clamped to the duration, and re-renders the clock
    /// display.
    pub fn sampler_tick(&mut self, captured_token: u64, clock_seconds: u64)
        requires
            old(self).wf(),
        ensures
            final(self).wf(),
            captured_token != old(self).session_token || old(self).session is None
                ==> *final(self) == *old(self),
            captured_token == old(self).session_token ==> (old(self).session matches Some(s)
                ==> {
                    let new_pos = clamped_position(clock_seconds as int, s.duration_seconds as int);
                    &&& final(self).session matches Some(t)
                    &&& t.position_seconds == new_pos
                    &&& t.formatted_position@ == hms_format(new_pos as nat)
                    &&& t == (PlaybackSession {
                        position_seconds: t.position_seconds,
                        formatted_position: t.formatted_position,
                        ..s
                    })
                    &&& final(self).session_token == old(self).session_token
                    &&& final(self).sampler_token == old(self).sampler_token
                }),
    {
        if captured_token != self.session_token {
            return ;
        }
        match self.session.take() {
            None => {
            }
            Some(mut sess) => {
                let new_pos: u64 = if clock_seconds > sess.duration_seconds {
                    sess.duration_seconds
                } else {
                    clock_seconds
                };
                sess.position_seconds = new_pos;
                sess.formatted_position = format_position(new_pos);
                self.session = Some(sess);
            }
        }
    }
}

/// The rendered clock never drifts: in a well-formed store the formatted
/// position is exactly the `HH:MM:SS` derivation of the position in
/// seconds, and the position never exceeds the episode duration. Every
/// store method keeps the store well formed, so this holds in every state
/// the views can observe.
pub proof fn lemma_no_clock_drift(store: PlayerStore)
    requires
        store.wf(),
    ensures
        store.session matches Some(s) ==> s.formatted_position@ == hms_format(
            s.position_seconds as nat,
        ) && s.position_seconds <= s.duration_seconds,
{
}

/// Exactly one session and one sampler survive any run of session starts:
/// along a chain of stores linked by `start_session_transition`, the final
/// store holds one session, its one sampler is the one with the current
/// token, and every sampler started earlier in the chain carries a strictly
/// older token — so the stale guard discards its ticks and no stale sampler
/// accumulates.
pub proof fn lemma_single_active_session(chain: Seq<PlayerStore>, metas: Seq<SessionMetadata>)
    requires
        chain.len() == metas.len() + 1,
        metas.len() >= 1,
        forall|i: int|
            0 <= i < metas.len() ==> start_session_transition(
                chain[i],
                chain[i + 1],
                metas[i],
            ),
    ensures
        chain.last().session is Some,
        chain.last().sampler_token == Some(chain.last().session_token),
        forall|i: int| 0 <= i < metas.len() ==> chain[i].session_token < chain.last().session_token,
    decreases metas.len(),
{
    if metas.len() == 1 {
        assert(start_session_transition(chain[0], chain[1], metas[0]));
    } else {
        lemma_single_active_session(chain.drop_first(), metas.drop_first());
        assert(start_session_transition(chain[0], chain[1], metas[0]));
        assert forall|i: int|
            0 <= i < metas.len() implies chain[i].session_token < chain.last().session_token by {
            if i >= 1 {
                assert(chain.drop_first()[i - 1] == chain[i]);
                assert(chain.drop_first().last() == chain.last());
            } else {
                assert(chain.drop_first()[0] == chain[1]);
                assert(chain.drop_first().last() == chain.last());
            }
        }
    }
}

} // verus!
