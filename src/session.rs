//! The continuation protocol of one guild: what happens on join, enqueue,
//! track end, track error, a finished resolution, periodic tick and leave.
use vstd::prelude::*;

use crate::idle::{idle_expired, IdleTimeoutInfo};
use crate::queue::{CrackTrackQueue, QueueView};
use crate::track::{
    is_resolved, opened_view, opt_view, track_views, MetadataView, ResolvedTrack, TrackMetadata,
    TrackView,
};

verus! {

/// Where a guild's voice session stands.
#[derive(Clone, Copy, Debug, PartialEq, Eq, Structural)]
pub enum SessionState {
    Disconnected,
    ConnectedIdle,
    ConnectedPlaying,
}

/// The message sent to the guild's channel on a transition.
#[derive(Clone, Copy, Debug, PartialEq, Eq, Structural)]
pub enum Announcement {
    /// The track in the reaction's `play` starts.
    NowPlaying,
    /// The queue ran out and was refilled from the loop backup; the track in
    /// `play` starts it again.
    LoopRestarted,
    /// Nothing is left to play.
    QueueFinished,
    /// The guild was left for want of activity.
    IdleDisconnect,
}

/// Failures of the protocol's commands.
#[derive(Clone, Copy, Debug, PartialEq, Eq, Structural)]
pub enum PlaybackError {
    /// No voice session is active for the guild.
    TransportUnavailable,
}

/// What the caller is to carry out after a transition: at most one track to
/// hand to the transport or to resolve, and at most one announcement.
pub struct Reaction {
    /// Stop the track the transport is playing.
    pub stop_current: bool,
    /// Report to the channel that the current track failed.
    pub report_error: bool,
    /// Hand this track to the transport.
    pub play: Option<ResolvedTrack>,
    /// This track, taken from the queue, has no metadata yet: resolve it and
    /// report with [`GuildSession::on_resolved`], or with
    /// [`GuildSession::on_track_error`] if that fails.
    pub resolve: Option<ResolvedTrack>,
    pub announcement: Option<Announcement>,
    /// Tear down the voice session.
    pub disconnect: bool,
    /// Stop the periodic idle check.
    pub cancel_timer: bool,
}

/// The track an advance takes and what stays queued after it: the head of
/// the queue `e`; once the queue is empty and looping is on, the head of the
/// loop backup `b`, which refills the queue. The flag tells the second case.
pub open spec fn next_of(e: Seq<TrackView>, b: Seq<TrackView>, looping: bool) -> Option<
    (TrackView, Seq<TrackView>, bool),
> {
    if e.len() > 0 {
        Some((e[0], e.drop_first(), false))
    } else if looping && b.len() > 0 {
        Some((b[0], b.drop_first(), true))
    } else {
        None
    }
}

/// The playback state of one guild.
pub struct GuildSession {
    pub state: SessionState,
    pub queue: CrackTrackQueue,
    pub idle: IdleTimeoutInfo,
    /// Whether the play order starts over once the queue runs out.
    pub looping: bool,
    /// Every track added to the queue since the session was last emptied,
    /// in the order added: an append-only record that shuffling, removing
    /// and playing never touch, and what a loop plays again.
    pub loop_backup: Vec<ResolvedTrack>,
}

impl Reaction {
    /// Nothing to do.
    pub fn none() -> (r: Self)
        ensures
            r.is_none(),
    {
        Reaction {
            stop_current: false,
            report_error: false,
            play: None,
            resolve: None,
            announcement: None,
            disconnect: false,
            cancel_timer: false,
        }
    }

    /// Nothing to do.
    pub open spec fn is_none(&self) -> bool {
        !self.stop_current && !self.report_error && self.play is None && self.resolve is None
            && self.announcement is None && !self.disconnect && !self.cancel_timer
    }
}

/// One track per step: whenever playback moves on and the queue is not
/// empty, exactly its head leaves it and the rest stays in order.
pub proof fn lemma_advance_takes_one(old: GuildSession, new: GuildSession, r: Reaction, tick: usize)
    requires
        GuildSession::advanced(old, new, r, tick),
        old.queue@.entries.len() > 0,
    ensures
        new.queue@.entries == old.queue@.entries.drop_first(),
        opt_view(r.play) == Some(opened_view(old.queue@.entries[0])) || opt_view(r.resolve) == Some(
            old.queue@.entries[0],
        ),
{
}


fn copy_tracks(v: &Vec<ResolvedTrack>) -> (r: Vec<ResolvedTrack>)
    ensures
        track_views(r@) == track_views(v@),
{
    let mut r: Vec<ResolvedTrack> = Vec::new();
    let mut i: usize = 0;
    while i < v.len()
        invariant
            i <= v@.len(),
            track_views(r@) == track_views(v@.subrange(0, i as int)),
        decreases v@.len() - i,
    {
        let t = v[i].clone();
        let ghost before = r@;
        r.push(t);
        assert(track_views(r@) =~= track_views(before).push(t@));
        assert(track_views(v@.subrange(0, i + 1)) =~= track_views(v@.subrange(0, i as int)).push(
            v@[i as int]@,
        ));
        i = i + 1;
    }
    assert(v@.subrange(0, i as int) =~= v@);
    r
}

impl GuildSession {
    /// Consistency of the parts: a track is recorded as playing exactly when
    /// the session plays.
    pub open spec fn wf(&self) -> bool {
        (self.state == SessionState::ConnectedPlaying) == (self.queue@.playing is Some)
    }

    /// What [`GuildSession::advance`] does to a session, given the state
    /// before and the minute: exactly one track leaves the queue, its head
    /// (after a refill from the loop backup if the queue ran out and looping
    /// is on), and starts if it is resolved or is handed out to be resolved;
    /// with nothing to take, the session goes idle.
    pub open spec fn advanced(old: GuildSession, new: GuildSession, r: Reaction, tick: usize) -> bool {
        Self::advanced_from(old.queue@, track_views(old.loop_backup@), old.looping, old.idle, new, r, tick)
    }

    /// [`GuildSession::advanced`], from the parts of the session before.
    pub open spec fn advanced_from(
        q: QueueView,
        b: Seq<TrackView>,
        looping: bool,
        idle: IdleTimeoutInfo,
        new: GuildSession,
        r: Reaction,
        tick: usize,
    ) -> bool {
        let last = if tick > idle.last_activity { tick } else { idle.last_activity };
        &&& new.looping == looping
        &&& track_views(new.loop_backup@) == b
        &&& new.queue@.display == q.display
        &&& new.idle.timeout_minutes == idle.timeout_minutes
        &&& !r.stop_current && !r.report_error && !r.disconnect && !r.cancel_timer
        &&& match next_of(q.entries, b, looping) {
            Some((t, rest, looped)) => {
                &&& new.state == SessionState::ConnectedPlaying
                &&& new.queue@.entries == rest
                &&& if is_resolved(t) {
                    &&& new.queue@.playing == Some(opened_view(t))
                    &&& opt_view(r.play) == Some(opened_view(t))
                    &&& r.resolve is None
                    &&& r.announcement == Some(
                        if looped {
                            Announcement::LoopRestarted
                        } else {
                            Announcement::NowPlaying
                        },
                    )
                    &&& new.idle.last_activity == last
                } else {
                    &&& new.queue@.playing == Some(t)
                    &&& r.play is None
                    &&& opt_view(r.resolve) == Some(t)
                    &&& r.announcement == if looped {
                        Some(Announcement::LoopRestarted)
                    } else {
                        None
                    }
                    &&& new.idle.last_activity == idle.last_activity
                }
            },
            None => {
                &&& new.state == SessionState::ConnectedIdle
                &&& new.queue@.entries == Seq::<TrackView>::empty()
                &&& new.queue@.playing is None
                &&& r.play is None
                &&& r.resolve is None
                &&& r.announcement == Some(Announcement::QueueFinished)
                &&& new.idle.last_activity == idle.last_activity
            },
        }
    }

    /// Outcome of [`GuildSession::join`] at minute `tick`.
    pub open spec fn joined(old: GuildSession, new: GuildSession, tick: usize) -> bool {
        &&& (new.state == if old.state == SessionState::Disconnected {
            SessionState::ConnectedIdle
        } else {
            old.state
        })
        &&& (new.idle == (IdleTimeoutInfo { last_activity: tick, ..old.idle }))
        &&& (new.queue@ == old.queue@)
        &&& (new.looping == old.looping)
        &&& (new.loop_backup == old.loop_backup)
    }

    /// Outcome of [`GuildSession::enqueue`] of a track with view `track`.
    pub open spec fn enqueued(
        old: GuildSession,
        new: GuildSession,
        track: TrackView,
        r: Result<Reaction, PlaybackError>,
        tick: usize,
    ) -> bool {
        &&& (old.state == SessionState::Disconnected ==> r == Err::<Reaction, PlaybackError>(
            PlaybackError::TransportUnavailable,
        ) && new == old)
        &&& (old.state == SessionState::ConnectedPlaying ==> r is Ok && r->Ok_0.is_none()
            && new.state == SessionState::ConnectedPlaying
            && new.queue@ == (QueueView {
                entries: old.queue@.entries.push(track),
                ..old.queue@
            })
            && track_views(new.loop_backup@) == track_views(old.loop_backup@).push(track)
            && new.idle == old.idle && new.looping == old.looping)
        &&& (old.state == SessionState::ConnectedIdle ==> r is Ok && Self::advanced_from(
            QueueView { entries: old.queue@.entries.push(track), ..old.queue@ },
            track_views(old.loop_backup@).push(track),
            old.looping,
            old.idle,
            new,
            r->Ok_0,
            tick,
        ))
    }

    /// Outcome of [`GuildSession::on_track_end`].
    pub open spec fn ended(old: GuildSession, new: GuildSession, r: Reaction, tick: usize) -> bool {
        if old.state == SessionState::ConnectedPlaying {
            Self::advanced(old, new, r, tick)
        } else {
            r.is_none() && new == old
        }
    }

    /// Outcome of [`GuildSession::on_track_error`].
    pub open spec fn errored(old: GuildSession, new: GuildSession, r: Reaction, tick: usize) -> bool {
        if old.state == SessionState::ConnectedPlaying {
            &&& r.stop_current
            &&& r.report_error
            &&& Self::advanced(
                old,
                new,
                Reaction { stop_current: false, report_error: false, ..r },
                tick,
            )
        } else {
            r.is_none() && new == old
        }
    }

    /// Outcome of [`GuildSession::skip`].
    pub open spec fn skipped(
        old: GuildSession,
        new: GuildSession,
        r: Result<Reaction, PlaybackError>,
        tick: usize,
    ) -> bool {
        &&& (old.state == SessionState::Disconnected ==> r == Err::<Reaction, PlaybackError>(
            PlaybackError::TransportUnavailable,
        ) && new == old)
        &&& (old.state != SessionState::Disconnected ==> r is Ok && r->Ok_0.stop_current
            && !r->Ok_0.report_error && Self::advanced(
            old,
            new,
            Reaction { stop_current: false, ..r->Ok_0 },
            tick,
        ))
    }

    /// Outcome of [`GuildSession::on_tick`].
    pub open spec fn ticked(old: GuildSession, new: GuildSession, r: Reaction, tick: usize) -> bool {
        &&& (old.state == SessionState::ConnectedIdle && idle_expired(
            old.idle.timeout_minutes,
            old.idle.last_activity,
            tick,
        ) ==> {
            &&& new.state == SessionState::Disconnected
            &&& new.queue@.entries.len() == 0
            &&& new.loop_backup@.len() == 0
            &&& new.queue@.playing is None
            &&& new.idle == old.idle
            &&& r.disconnect && r.cancel_timer
            &&& r.announcement == Some(Announcement::IdleDisconnect)
            &&& !r.stop_current && !r.report_error && r.play is None && r.resolve is None
        })
        &&& (!(old.state == SessionState::ConnectedIdle && idle_expired(
            old.idle.timeout_minutes,
            old.idle.last_activity,
            tick,
        )) ==> r.is_none() && new == old)
    }

    /// Outcome of [`GuildSession::leave`].
    pub open spec fn left(
        old: GuildSession,
        new: GuildSession,
        r: Result<Reaction, PlaybackError>,
    ) -> bool {
        &&& (old.state == SessionState::Disconnected ==> r == Err::<Reaction, PlaybackError>(
            PlaybackError::TransportUnavailable,
        ) && new == old)
        &&& (old.state != SessionState::Disconnected ==> {
            &&& r is Ok
            &&& new.state == SessionState::Disconnected
            &&& new.queue@.entries.len() == 0
            &&& new.loop_backup@.len() == 0
            &&& new.queue@.playing is None
            &&& new.idle == old.idle
            &&& r->Ok_0.disconnect && r->Ok_0.cancel_timer
            &&& r->Ok_0.stop_current == (old.state == SessionState::ConnectedPlaying)
            &&& !r->Ok_0.report_error && r->Ok_0.play is None && r->Ok_0.resolve is None
            &&& r->Ok_0.announcement is None
        })
    }

    /// Outcome of [`GuildSession::on_resolved`] with metadata `m`.
    pub open spec fn resolved(
        old: GuildSession,
        new: GuildSession,
        m: MetadataView,
        r: Reaction,
        tick: usize,
    ) -> bool {
        match old.queue@.playing {
            Some(t) if old.state == SessionState::ConnectedPlaying && !is_resolved(t) => {
                let started = opened_view(TrackView { metadata: Some(m), ..t });
                &&& new.state == SessionState::ConnectedPlaying
                &&& new.queue@ == (QueueView { playing: Some(started), ..old.queue@ })
                &&& opt_view(r.play) == Some(started)
                &&& r.resolve is None
                &&& r.announcement == Some(Announcement::NowPlaying)
                &&& !r.stop_current && !r.report_error && !r.disconnect && !r.cancel_timer
                &&& new.idle.timeout_minutes == old.idle.timeout_minutes
                &&& new.idle.last_activity == if tick > old.idle.last_activity {
                    tick
                } else {
                    old.idle.last_activity
                }
                &&& new.looping == old.looping
                &&& new.loop_backup == old.loop_backup
            },
            _ => r.is_none() && new == old,
        }
    }

    /// Outcome of [`GuildSession::queue_track`] of a track with view `track`.
    pub open spec fn queued(old: GuildSession, new: GuildSession, track: TrackView) -> bool {
        &&& new.state == old.state
        &&& new.queue@ == (QueueView { entries: old.queue@.entries.push(track), ..old.queue@ })
        &&& track_views(new.loop_backup@) == track_views(old.loop_backup@).push(track)
        &&& new.idle == old.idle
        &&& new.looping == old.looping
    }

    /// A disconnected session with an empty queue and the default idle
    /// threshold.
    pub fn new() -> (r: Self)
        ensures
            r.wf(),
            r.state == SessionState::Disconnected,
            r.queue@.entries.len() == 0,
            r.queue@.playing is None,
            r.queue@.display == crate::EMPTY_QUEUE@,
            r.idle.timeout_minutes == crate::idle::DEFAULT_IDLE_MINUTES,
            r.idle.last_activity == 0,
            !r.looping,
            r.loop_backup@.len() == 0,
    {
        GuildSession {
            state: SessionState::Disconnected,
            queue: CrackTrackQueue::new(),
            idle: IdleTimeoutInfo::new(),
            looping: false,
            loop_backup: Vec::new(),
        }
    }

    /// Starts the next track: the shared step of track end, track error and
    /// enqueueing into an idle session.
    fn advance(&mut self, tick: usize) -> (r: Reaction)
        requires
            old(self).state != SessionState::Disconnected,
        ensures
            Self::advanced(*old(self), *final(self), r, tick),
            final(self).wf(),
    {
        let mut next = self.queue.dequeue();
        let mut looped = false;
        if next.is_none() && self.looping && self.loop_backup.len() > 0 {
            let again = copy_tracks(&self.loop_backup);
            self.queue.append_vec(again);
            assert(self.queue@.entries =~= track_views(self.loop_backup@));
            next = self.queue.dequeue();
            looped = true;
        }
        match next {
            Some(t) => {
                self.state = SessionState::ConnectedPlaying;
                if t.is_resolved() {
                    let announcement = if looped {
                        Announcement::LoopRestarted
                    } else {
                        Announcement::NowPlaying
                    };
                    self.start_track(t, announcement, tick)
                } else {
                    self.queue.set_now_playing(Some(t.clone()));
                    Reaction {
                        stop_current: false,
                        report_error: false,
                        play: None,
                        resolve: Some(t),
                        announcement: if looped {
                            Some(Announcement::LoopRestarted)
                        } else {
                            None
                        },
                        disconnect: false,
                        cancel_timer: false,
                    }
                }
            },
            None => {
                assert(self.queue@.entries =~= Seq::<TrackView>::empty());
                self.queue.set_now_playing(None);
                self.state = SessionState::ConnectedIdle;
                Reaction {
                    stop_current: false,
                    report_error: false,
                    play: None,
                    resolve: None,
                    announcement: Some(Announcement::QueueFinished),
                    disconnect: false,
                    cancel_timer: false,
                }
            },
        }
    }

    /// Hands resolved track `t` to the transport at minute `tick`: its source
    /// is opened, it is recorded as playing and the activity is bumped.
    fn start_track(&mut self, t: ResolvedTrack, announcement: Announcement, tick: usize) -> (r: Reaction)
        ensures
            final(self).state == old(self).state,
            final(self).queue@ == (QueueView { playing: Some(opened_view(t@)), ..old(self).queue@ }),
            final(self).idle.timeout_minutes == old(self).idle.timeout_minutes,
            final(self).idle.last_activity == if tick > old(self).idle.last_activity {
                tick
            } else {
                old(self).idle.last_activity
            },
            final(self).looping == old(self).looping,
            final(self).loop_backup == old(self).loop_backup,
            opt_view(r.play) == Some(opened_view(t@)),
            r.resolve is None,
            r.announcement == Some(announcement),
            !r.stop_current && !r.report_error && !r.disconnect && !r.cancel_timer,
    {
        let t = t.open_source();
        let playing = t.clone();
        self.queue.set_now_playing(Some(playing));
        self.idle.bump_activity(tick);
        Reaction {
            stop_current: false,
            report_error: false,
            play: Some(t),
            resolve: None,
            announcement: Some(announcement),
            disconnect: false,
            cancel_timer: false,
        }
    }

    /// Joins a voice channel at minute `tick`: a disconnected session becomes
    /// idle, and the idle count restarts in any case.
    pub fn join(&mut self, tick: usize)
        requires
            old(self).wf(),
        ensures
            final(self).wf(),
            Self::joined(*old(self), *final(self), tick),
    {
        if self.state == SessionState::Disconnected {
            self.state = SessionState::ConnectedIdle;
        }
        self.idle.reset(tick);
    }

    /// Turns looping of the play order on or off.
    pub fn set_looping(&mut self, looping: bool)
        ensures
            *final(self) == (GuildSession { looping, ..*old(self) }),
    {
        self.looping = looping;
    }

    /// Adds `track` to the queue at minute `tick`. An idle session starts
    /// playing at once; a disconnected one refuses the track.
    pub fn enqueue(&mut self, track: ResolvedTrack, tick: usize) -> (r: Result<Reaction, PlaybackError>)
        requires
            old(self).wf(),
        ensures
            final(self).wf(),
            Self::enqueued(*old(self), *final(self), track@, r, tick),
    {
        if self.state == SessionState::Disconnected {
            return Err(PlaybackError::TransportUnavailable);
        }
        self.queue_track(track);
        if self.state == SessionState::ConnectedIdle {
            let r = self.advance(tick);
            Ok(r)
        } else {
            Ok(Reaction::none())
        }
    }

    /// Adds `track` at the back of the queue and records it in the loop
    /// backup, in any state; playback is not started.
    pub fn queue_track(&mut self, track: ResolvedTrack)
        requires
            old(self).wf(),
        ensures
            final(self).wf(),
            Self::queued(*old(self), *final(self), track@),
    {
        let copy = track.clone();
        let ghost before = self.loop_backup@;
        self.loop_backup.push(copy);
        assert(track_views(self.loop_backup@) =~= track_views(before).push(track@));
        self.queue.push_back(track);
    }

    /// Adds `tracks` at the back of the queue, in order, and records them in
    /// the loop backup, in any state; playback is not started.
    pub fn queue_tracks(&mut self, tracks: Vec<ResolvedTrack>)
        requires
            old(self).wf(),
        ensures
            final(self).wf(),
            final(self).state == old(self).state,
            final(self).queue@ == (QueueView {
                entries: old(self).queue@.entries + track_views(tracks@),
                ..old(self).queue@
            }),
            track_views(final(self).loop_backup@) == track_views(old(self).loop_backup@)
                + track_views(tracks@),
            final(self).idle == old(self).idle,
            final(self).looping == old(self).looping,
    {
        let mut copy = copy_tracks(&tracks);
        let ghost before = self.loop_backup@;
        let ghost added = copy@;
        self.loop_backup.append(&mut copy);
        assert(track_views(self.loop_backup@) =~= track_views(before) + track_views(added));
        self.queue.append_vec(tracks);
    }

    /// The track handed out to be resolved now has metadata `metadata`: it
    /// starts at minute `tick`. Without such a track nothing happens.
    pub fn on_resolved(&mut self, metadata: TrackMetadata, tick: usize) -> (r: Reaction)
        requires
            old(self).wf(),
        ensures
            final(self).wf(),
            Self::resolved(*old(self), *final(self), metadata@, r, tick),
    {
        if self.state != SessionState::ConnectedPlaying {
            return Reaction::none();
        }
        match self.queue.now_playing() {
            Some(t) => {
                if t.is_resolved() {
                    return Reaction::none();
                }
                let t = t.with_metadata(metadata);
                self.start_track(t, Announcement::NowPlaying, tick)
            },
            None => Reaction::none(),
        }
    }

    /// The transport finished the current track: the next one starts, the
    /// loop starts over, or the session goes idle. Outside of playback
    /// nothing happens.
    pub fn on_track_end(&mut self, tick: usize) -> (r: Reaction)
        requires
            old(self).wf(),
        ensures
            final(self).wf(),
            Self::ended(*old(self), *final(self), r, tick),
    {
        if self.state != SessionState::ConnectedPlaying {
            return Reaction::none();
        }
        self.advance(tick)
    }

    /// The transport failed on the current track: it is stopped, the failure
    /// is reported, and the session goes on as at the end of a track.
    pub fn on_track_error(&mut self, tick: usize) -> (r: Reaction)
        requires
            old(self).wf(),
        ensures
            final(self).wf(),
            Self::errored(*old(self), *final(self), r, tick),
    {
        if self.state != SessionState::ConnectedPlaying {
            return Reaction::none();
        }
        let r = self.advance(tick);
        Reaction { stop_current: true, report_error: true, ..r }
    }

    /// Skips the current track on request: it is stopped and the session
    /// goes on as at the end of a track.
    pub fn skip(&mut self, tick: usize) -> (r: Result<Reaction, PlaybackError>)
        requires
            old(self).wf(),
        ensures
            final(self).wf(),
            Self::skipped(*old(self), *final(self), r, tick),
    {
        if self.state == SessionState::Disconnected {
            return Err(PlaybackError::TransportUnavailable);
        }
        let r = self.advance(tick);
        Ok(Reaction { stop_current: true, ..r })
    }

    /// The periodic check at minute `tick`: an idle session past its
    /// threshold is left and the check stops itself; otherwise nothing
    /// happens.
    pub fn on_tick(&mut self, tick: usize) -> (r: Reaction)
        requires
            old(self).wf(),
        ensures
            final(self).wf(),
            Self::ticked(*old(self), *final(self), r, tick),
    {
        if self.state == SessionState::ConnectedIdle && self.idle.is_idle_expired(tick) {
            self.clear_session();
            Reaction {
                stop_current: false,
                report_error: false,
                play: None,
                resolve: None,
                announcement: Some(Announcement::IdleDisconnect),
                disconnect: true,
                cancel_timer: true,
            }
        } else {
            Reaction::none()
        }
    }

    /// Leaves the voice channel on request: playback stops, the queue and
    /// the loop backup are emptied. A disconnected session refuses.
    pub fn leave(&mut self) -> (r: Result<Reaction, PlaybackError>)
        requires
            old(self).wf(),
        ensures
            final(self).wf(),
            Self::left(*old(self), *final(self), r),
    {
        if self.state == SessionState::Disconnected {
            return Err(PlaybackError::TransportUnavailable);
        }
        let was_playing = self.state == SessionState::ConnectedPlaying;
        self.clear_session();
        Ok(Reaction {
            stop_current: was_playing,
            report_error: false,
            play: None,
            resolve: None,
            announcement: None,
            disconnect: true,
            cancel_timer: true,
        })
    }

    fn clear_session(&mut self)
        ensures
            final(self).state == SessionState::Disconnected,
            final(self).queue@.entries.len() == 0,
            final(self).queue@.playing is None,
            final(self).loop_backup@.len() == 0,
            final(self).idle == old(self).idle,
            final(self).looping == old(self).looping,
            final(self).wf(),
    {
        self.queue.clear();
        self.queue.set_now_playing(None);
        self.loop_backup = Vec::new();
        self.state = SessionState::Disconnected;
    }
}

} // verus!
