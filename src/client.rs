//! The registry of guilds: one session, with its queue and idle state, per
//! guild, created on first use.
use std::collections::VecDeque;
use vstd::prelude::*;

use dashmap::DashMap;

use crate::queue::{rendered, QueueView};
use crate::idle::IdleTimeoutInfo;
use crate::session::{GuildSession, PlaybackError, Reaction, SessionState};
use crate::track::{track_views, ResolvedTrack, TrackMetadata, TrackView};

verus! {

#[verifier::external_type_specification]
#[verifier::external_body]
#[verifier::reject_recursive_types(K)]
#[verifier::reject_recursive_types(V)]
#[verifier::reject_recursive_types(S)]
pub struct ExDashMap<K, V, S>(DashMap<K, V, S>);

/// Map from guild id to the slot of its session.
pub type SlotMap = DashMap<u64, usize>;

/// What a map from guild to slot holds.
pub uninterp spec fn slot_map(m: SlotMap) -> Map<u64, usize>;

/// Relies on `DashMap::new`: a new map is empty.
#[verifier::external_body]
fn new_slot_map() -> (r: SlotMap)
    ensures
        slot_map(r).dom() == Set::<u64>::empty(),
{
    DashMap::new()
}

/// Relies on `DashMap::get`: the value stored under `guild`, if any.
#[verifier::external_body]
fn lookup_slot(m: &SlotMap, guild: u64) -> (r: Option<usize>)
    ensures
        slot_map(*m).contains_key(guild) ==> r == Some(slot_map(*m)[guild]),
        !slot_map(*m).contains_key(guild) ==> r is None,
{
    m.get(&guild).map(|entry| *entry)
}

/// Relies on `DashMap::entry` with `Entry::or_insert`: in one step, the value
/// stored under `guild` if there is one, else `slot`, which is then stored.
#[verifier::external_body]
fn slot_or_insert(m: &mut SlotMap, guild: u64, slot: usize) -> (r: usize)
    ensures
        slot_map(*old(m)).contains_key(guild) ==> r == slot_map(*old(m))[guild] && slot_map(
            *final(m),
        ) == slot_map(*old(m)),
        !slot_map(*old(m)).contains_key(guild) ==> r == slot && slot_map(*final(m)) == slot_map(
            *old(m),
        ).insert(guild, slot),
{
    *m.entry(guild).or_insert(slot)
}

/// Get-or-create is idempotent: after a first request for `guild` has
/// made sure it has a session, a second request creates nothing and sees
/// the very session the first one left, and the guild holds one session.
pub proof fn lemma_get_or_create_idempotent(
    m0: Map<u64, GuildSession>,
    m1: Map<u64, GuildSession>,
    m2: Map<u64, GuildSession>,
    guild: u64,
    first: bool,
    second: bool,
)
    requires
        CrackTrackClient::ensured(m0, m1, guild, first),
        CrackTrackClient::ensured(m1, m2, guild, second),
    ensures
        !second,
        m2 == m1,
        m2[guild] == m1[guild],
        m2.dom() == m0.dom().insert(guild),
{
    if !first {
        assert(m0.dom().insert(guild) =~= m0.dom());
    }
}

/// The sessions of all guilds the bot has seen, looked up by guild id.
pub struct CrackTrackClient {
    guild_slots: SlotMap,
    sessions: Vec<GuildSession>,
}

impl CrackTrackClient {
    /// The session of each known guild.
    pub closed spec fn guilds(&self) -> Map<u64, GuildSession> {
        Map::new(
            |g: u64| slot_map(self.guild_slots).contains_key(g),
            |g: u64| self.sessions@[slot_map(self.guild_slots)[g] as int],
        )
    }

    /// Each guild has a slot of its own and every session is consistent.
    pub closed spec fn wf(&self) -> bool {
        let m = slot_map(self.guild_slots);
        &&& forall|g: u64| #[trigger] m.contains_key(g) ==> m[g] < self.sessions@.len()
        &&& forall|g1: u64, g2: u64|
            #[trigger] m.contains_key(g1) && #[trigger] m.contains_key(g2) && g1 != g2 ==> m[g1]
                != m[g2]
        &&& forall|i: int| 0 <= i < self.sessions@.len() ==> (#[trigger] self.sessions@[i]).wf()
    }

    /// Whether `s` is a session as [`GuildSession::new`] makes it.
    pub open spec fn is_fresh(s: GuildSession) -> bool {
        &&& s.wf()
        &&& s.state == SessionState::Disconnected
        &&& s.queue@.entries.len() == 0
        &&& s.queue@.playing is None
        &&& s.queue@.display == crate::EMPTY_QUEUE@
        &&& s.idle.timeout_minutes == crate::idle::DEFAULT_IDLE_MINUTES
        &&& s.idle.last_activity == 0
        &&& !s.looping
        &&& s.loop_backup@.len() == 0
    }

    /// No guild known yet.
    pub fn new() -> (r: Self)
        ensures
            r.wf(),
            r.guilds() == Map::<u64, GuildSession>::empty(),
    {
        let r = CrackTrackClient { guild_slots: new_slot_map(), sessions: Vec::new() };
        assert(r.guilds() =~= Map::<u64, GuildSession>::empty());
        r
    }

    /// Finds the slot of `guild`, creating a fresh session first if the
    /// guild is new. Lookup and creation are one step on the map.
    fn slot_of(&mut self, guild: u64) -> (r: usize)
        requires
            old(self).wf(),
        ensures
            final(self).wf(),
            r < final(self).sessions@.len(),
            slot_map(final(self).guild_slots).contains_key(guild),
            slot_map(final(self).guild_slots)[guild] == r,
            old(self).guilds().contains_key(guild) ==> final(self).guilds() == old(self).guilds(),
            !old(self).guilds().contains_key(guild) ==> final(self).guilds().dom() == old(
                self,
            ).guilds().dom().insert(guild) && forall|g: u64| #[trigger]
                old(self).guilds().contains_key(g) ==> final(self).guilds()[g] == old(
                    self,
                ).guilds()[g],
            !old(self).guilds().contains_key(guild) ==> Self::is_fresh(final(self).guilds()[guild]),
            final(self).sessions@.len() >= old(self).sessions@.len(),
    {
        let next = self.sessions.len();
        let ghost m0 = slot_map(self.guild_slots);
        let slot = slot_or_insert(&mut self.guild_slots, guild, next);
        if slot == next {
            proof {
                if m0.contains_key(guild) {
                    assert(m0[guild] < next);
                }
            }
            self.sessions.push(GuildSession::new());
            assert(self.guilds().dom() =~= old(self).guilds().dom().insert(guild));
        } else {
            assert(self.guilds() =~= old(self).guilds());
        }
        slot
    }

    /// What [`CrackTrackClient::ensure_queue`] does to the sessions: a known
    /// guild keeps its session and nothing changes; an unknown one gets a
    /// fresh session and the others stay.
    pub open spec fn ensured(
        before: Map<u64, GuildSession>,
        after: Map<u64, GuildSession>,
        guild: u64,
        created: bool,
    ) -> bool {
        &&& created == !before.contains_key(guild)
        &&& after.contains_key(guild)
        &&& !created ==> after == before
        &&& created ==> after.dom() == before.dom().insert(guild) && Self::is_fresh(after[guild])
            && forall|g: u64| #[trigger] before.contains_key(g) ==> after[g] == before[g]
    }

    /// Makes sure `guild` has a session; `true` when it had to be created.
    /// Asking again for the same guild changes nothing.
    pub fn ensure_queue(&mut self, guild: u64) -> (created: bool)
        requires
            old(self).wf(),
        ensures
            final(self).wf(),
            Self::ensured(old(self).guilds(), final(self).guilds(), guild, created),
    {
        let created = lookup_slot(&self.guild_slots, guild).is_none();
        let _ = self.slot_of(guild);
        created
    }

    /// The session of `guild`, if the guild is known.
    pub fn session(&self, guild: u64) -> (r: Option<&GuildSession>)
        requires
            self.wf(),
        ensures
            self.guilds().contains_key(guild) ==> r is Some && *r->0 == self.guilds()[guild],
            !self.guilds().contains_key(guild) ==> r is None,
    {
        match lookup_slot(&self.guild_slots, guild) {
            Some(i) => Some(&self.sessions[i]),
            None => None,
        }
    }

    /// `p` is the session `guild` had before an operation that creates it
    /// when missing: the known one, or a fresh one.
    pub open spec fn prior(before: Map<u64, GuildSession>, guild: u64, p: GuildSession) -> bool {
        if before.contains_key(guild) {
            p == before[guild]
        } else {
            Self::is_fresh(p)
        }
    }

    fn replace_at(&mut self, guild: u64, slot: usize, s: GuildSession) -> (prev: GuildSession)
        requires
            old(self).wf(),
            s.wf(),
            slot_map(old(self).guild_slots).contains_key(guild),
            slot_map(old(self).guild_slots)[guild] == slot,
        ensures
            final(self).wf(),
            prev == old(self).guilds()[guild],
            final(self).guilds() == old(self).guilds().insert(guild, s),
            final(self).sessions@.len() == old(self).sessions@.len(),
            final(self).guild_slots == old(self).guild_slots,
    {
        let prev = self.sessions.remove(slot);
        self.sessions.insert(slot, s);
        assert(self.sessions@ =~= old(self).sessions@.update(slot as int, s));
        assert(self.guilds() =~= old(self).guilds().insert(guild, s));
        prev
    }

    /// A copy of the queued tracks of `guild`, creating its session if new.
    pub fn get_queue_data(&mut self, guild: u64) -> (r: VecDeque<ResolvedTrack>)
        requires
            old(self).wf(),
        ensures
            final(self).wf(),
            final(self).guilds().contains_key(guild),
            final(self).guilds().remove(guild) == old(self).guilds().remove(guild),
            Self::prior(old(self).guilds(), guild, final(self).guilds()[guild]),
            track_views(r@) == final(self).guilds()[guild].queue@.entries,
    {
        let slot = self.slot_of(guild);
        assert(final(self).guilds().remove(guild) =~= old(self).guilds().remove(guild)) by {
            assert(self.guilds().remove(guild) =~= old(self).guilds().remove(guild));
        }
        self.sessions[slot].queue.get_queue()
    }

    /// Adds `track` at the back of the queue of `guild` and records it in
    /// the loop backup, creating the session if new; playback is not started.
    pub fn enqueue_track(&mut self, guild: u64, track: ResolvedTrack)
        requires
            old(self).wf(),
        ensures
            final(self).wf(),
            final(self).guilds().contains_key(guild),
            final(self).guilds().remove(guild) == old(self).guilds().remove(guild),
            exists|p: GuildSession| #[trigger] Self::prior(old(self).guilds(), guild, p)
                && GuildSession::queued(p, final(self).guilds()[guild], track@),
    {
        let slot = self.slot_of(guild);
        assert(self.sessions@[slot as int].wf());
        let mut s = self.replace_at(guild, slot, GuildSession::new());
        let ghost p = s;
        s.queue_track(track);
        self.replace_at(guild, slot, s);
        assert(Self::prior(old(self).guilds(), guild, p));
        assert(self.guilds().remove(guild) =~= old(self).guilds().remove(guild));
    }

    /// Adds `tracks` at the back of the queue of `guild`, in order, and
    /// records them in the loop backup, creating the session if new;
    /// playback is not started.
    pub fn append_queue(&mut self, guild: u64, tracks: Vec<ResolvedTrack>)
        requires
            old(self).wf(),
        ensures
            final(self).wf(),
            final(self).guilds().contains_key(guild),
            final(self).guilds().remove(guild) == old(self).guilds().remove(guild),
            exists|p: GuildSession| #[trigger] Self::prior(old(self).guilds(), guild, p)
                && final(self).guilds()[guild].state == p.state
                && final(self).guilds()[guild].queue@ == (QueueView {
                    entries: p.queue@.entries + track_views(tracks@),
                    ..p.queue@
                })
                && track_views(final(self).guilds()[guild].loop_backup@) == track_views(p.loop_backup@)
                    + track_views(tracks@)
                && final(self).guilds()[guild].idle == p.idle
                && final(self).guilds()[guild].looping == p.looping,
    {
        let slot = self.slot_of(guild);
        assert(self.sessions@[slot as int].wf());
        let mut s = self.replace_at(guild, slot, GuildSession::new());
        let ghost p = s;
        s.queue_tracks(tracks);
        self.replace_at(guild, slot, s);
        assert(Self::prior(old(self).guilds(), guild, p));
        assert(self.guilds().remove(guild) =~= old(self).guilds().remove(guild));
    }

    /// Rebuilds the display of the queue of `guild`, creating its session if
    /// new.
    pub fn build_display(&mut self, guild: u64)
        requires
            old(self).wf(),
        ensures
            final(self).wf(),
            final(self).guilds().contains_key(guild),
            final(self).guilds().remove(guild) == old(self).guilds().remove(guild),
            exists|p: GuildSession| #[trigger] Self::prior(old(self).guilds(), guild, p)
                && final(self).guilds()[guild] == (GuildSession { queue: final(self).guilds()[guild].queue, ..p })
                && final(self).guilds()[guild].queue@ == (QueueView { display: rendered(p.queue@.playing, p.queue@.entries), ..p.queue@ }),
    {
        let slot = self.slot_of(guild);
        assert(self.sessions@[slot as int].wf());
        let mut s = self.replace_at(guild, slot, GuildSession::new());
        let ghost p = s;
        s.queue.build_display();
        self.replace_at(guild, slot, s);
        assert(Self::prior(old(self).guilds(), guild, p));
        assert(self.guilds().remove(guild) =~= old(self).guilds().remove(guild));
        
    }

    /// The display of the queue of `guild` as last built, creating its
    /// session if new.
    pub fn get_display(&mut self, guild: u64) -> (r: String)
        requires
            old(self).wf(),
        ensures
            final(self).wf(),
            final(self).guilds().contains_key(guild),
            final(self).guilds().remove(guild) == old(self).guilds().remove(guild),
            exists|p: GuildSession| #[trigger] Self::prior(old(self).guilds(), guild, p)
                && final(self).guilds()[guild] == p,
            r@ == final(self).guilds()[guild].queue@.display,
    {
        let slot = self.slot_of(guild);
        assert(self.sessions@[slot as int].wf());
        let mut s = self.replace_at(guild, slot, GuildSession::new());
        let ghost p = s;
        let d = s.queue.get_display();
        self.replace_at(guild, slot, s);
        assert(Self::prior(old(self).guilds(), guild, p));
        assert(self.guilds().remove(guild) =~= old(self).guilds().remove(guild));
        d
    }

    /// The bot joined a voice channel of `guild` at minute `tick`.
    pub fn join(&mut self, guild: u64, tick: usize)
        requires
            old(self).wf(),
        ensures
            final(self).wf(),
            final(self).guilds().contains_key(guild),
            final(self).guilds().remove(guild) == old(self).guilds().remove(guild),
            exists|p: GuildSession| #[trigger] Self::prior(old(self).guilds(), guild, p)
                && GuildSession::joined(p, final(self).guilds()[guild], tick),
    {
        let slot = self.slot_of(guild);
        assert(self.sessions@[slot as int].wf());
        let mut s = self.replace_at(guild, slot, GuildSession::new());
        let ghost p = s;
        s.join(tick);
        self.replace_at(guild, slot, s);
        assert(Self::prior(old(self).guilds(), guild, p));
        assert(self.guilds().remove(guild) =~= old(self).guilds().remove(guild));
        
    }

    /// Sets the idle threshold of `guild`, in minutes; 0 disables eviction.
    pub fn set_idle_timeout(&mut self, guild: u64, minutes: usize)
        requires
            old(self).wf(),
        ensures
            final(self).wf(),
            final(self).guilds().contains_key(guild),
            final(self).guilds().remove(guild) == old(self).guilds().remove(guild),
            exists|p: GuildSession| #[trigger] Self::prior(old(self).guilds(), guild, p)
                && final(self).guilds()[guild] == (GuildSession { idle: IdleTimeoutInfo { timeout_minutes: minutes, ..p.idle }, ..p }),
    {
        let slot = self.slot_of(guild);
        assert(self.sessions@[slot as int].wf());
        let mut s = self.replace_at(guild, slot, GuildSession::new());
        let ghost p = s;
        s.idle.set_timeout(minutes);
        self.replace_at(guild, slot, s);
        assert(Self::prior(old(self).guilds(), guild, p));
        assert(self.guilds().remove(guild) =~= old(self).guilds().remove(guild));
        
    }

    /// Turns looping of the play order of `guild` on or off.
    pub fn set_looping(&mut self, guild: u64, looping: bool)
        requires
            old(self).wf(),
        ensures
            final(self).wf(),
            final(self).guilds().contains_key(guild),
            final(self).guilds().remove(guild) == old(self).guilds().remove(guild),
            exists|p: GuildSession| #[trigger] Self::prior(old(self).guilds(), guild, p)
                && final(self).guilds()[guild] == (GuildSession { looping, ..p }),
    {
        let slot = self.slot_of(guild);
        assert(self.sessions@[slot as int].wf());
        let mut s = self.replace_at(guild, slot, GuildSession::new());
        let ghost p = s;
        s.set_looping(looping);
        self.replace_at(guild, slot, s);
        assert(Self::prior(old(self).guilds(), guild, p));
        assert(self.guilds().remove(guild) =~= old(self).guilds().remove(guild));
        
    }

    /// Adds `track` to the queue of `guild` at minute `tick` through the
    /// continuation protocol; an unknown guild has no voice session.
    pub fn enqueue(&mut self, guild: u64, track: ResolvedTrack, tick: usize) -> (r: Result<Reaction, PlaybackError>)
        requires
            old(self).wf(),
        ensures
            final(self).wf(),
            old(self).guilds().contains_key(guild) ==> final(self).guilds() == old(self).guilds().insert(
                guild,
                final(self).guilds()[guild],
            ) && GuildSession::enqueued(old(self).guilds()[guild], final(self).guilds()[guild], track@, r, tick),
            !old(self).guilds().contains_key(guild) ==> final(self).guilds() == old(self).guilds()
                && r == Err::<Reaction, PlaybackError>(PlaybackError::TransportUnavailable),
    {
        match lookup_slot(&self.guild_slots, guild) {
            None => Err(PlaybackError::TransportUnavailable),
            Some(slot) => {
                assert(self.sessions@[slot as int].wf());
                let mut s = self.replace_at(guild, slot, GuildSession::new());
                let r = s.enqueue(track, tick);
                self.replace_at(guild, slot, s);
                r
            },
        }
    }

    /// The transport finished the current track of `guild`.
    pub fn on_track_end(&mut self, guild: u64, tick: usize) -> (r: Reaction)
        requires
            old(self).wf(),
        ensures
            final(self).wf(),
            old(self).guilds().contains_key(guild) ==> final(self).guilds() == old(self).guilds().insert(
                guild,
                final(self).guilds()[guild],
            ) && GuildSession::ended(old(self).guilds()[guild], final(self).guilds()[guild], r, tick),
            !old(self).guilds().contains_key(guild) ==> final(self).guilds() == old(self).guilds()
                && r.is_none(),
    {
        match lookup_slot(&self.guild_slots, guild) {
            None => Reaction::none(),
            Some(slot) => {
                assert(self.sessions@[slot as int].wf());
                let mut s = self.replace_at(guild, slot, GuildSession::new());
                let r = s.on_track_end(tick);
                self.replace_at(guild, slot, s);
                r
            },
        }
    }

    /// The track of `guild` handed out to be resolved now has metadata
    /// `metadata`.
    pub fn on_resolved(&mut self, guild: u64, metadata: TrackMetadata, tick: usize) -> (r: Reaction)
        requires
            old(self).wf(),
        ensures
            final(self).wf(),
            old(self).guilds().contains_key(guild) ==> final(self).guilds() == old(self).guilds().insert(
                guild,
                final(self).guilds()[guild],
            ) && GuildSession::resolved(old(self).guilds()[guild], final(self).guilds()[guild], metadata@, r, tick),
            !old(self).guilds().contains_key(guild) ==> final(self).guilds() == old(self).guilds()
                && r.is_none(),
    {
        match lookup_slot(&self.guild_slots, guild) {
            None => Reaction::none(),
            Some(slot) => {
                assert(self.sessions@[slot as int].wf());
                let mut s = self.replace_at(guild, slot, GuildSession::new());
                let r = s.on_resolved(metadata, tick);
                self.replace_at(guild, slot, s);
                r
            },
        }
    }

    /// The transport failed on the current track of `guild`.
    pub fn on_track_error(&mut self, guild: u64, tick: usize) -> (r: Reaction)
        requires
            old(self).wf(),
        ensures
            final(self).wf(),
            old(self).guilds().contains_key(guild) ==> final(self).guilds() == old(self).guilds().insert(
                guild,
                final(self).guilds()[guild],
            ) && GuildSession::errored(old(self).guilds()[guild], final(self).guilds()[guild], r, tick),
            !old(self).guilds().contains_key(guild) ==> final(self).guilds() == old(self).guilds()
                && r.is_none(),
    {
        match lookup_slot(&self.guild_slots, guild) {
            None => Reaction::none(),
            Some(slot) => {
                assert(self.sessions@[slot as int].wf());
                let mut s = self.replace_at(guild, slot, GuildSession::new());
                let r = s.on_track_error(tick);
                self.replace_at(guild, slot, s);
                r
            },
        }
    }

    /// The periodic idle check of `guild` at minute `tick`.
    pub fn on_tick(&mut self, guild: u64, tick: usize) -> (r: Reaction)
        requires
            old(self).wf(),
        ensures
            final(self).wf(),
            old(self).guilds().contains_key(guild) ==> final(self).guilds() == old(self).guilds().insert(
                guild,
                final(self).guilds()[guild],
            ) && GuildSession::ticked(old(self).guilds()[guild], final(self).guilds()[guild], r, tick),
            !old(self).guilds().contains_key(guild) ==> final(self).guilds() == old(self).guilds()
                && r.is_none(),
    {
        match lookup_slot(&self.guild_slots, guild) {
            None => Reaction::none(),
            Some(slot) => {
                assert(self.sessions@[slot as int].wf());
                let mut s = self.replace_at(guild, slot, GuildSession::new());
                let r = s.on_tick(tick);
                self.replace_at(guild, slot, s);
                r
            },
        }
    }

    /// Skips the current track of `guild` on request.
    pub fn skip(&mut self, guild: u64, tick: usize) -> (r: Result<Reaction, PlaybackError>)
        requires
            old(self).wf(),
        ensures
            final(self).wf(),
            old(self).guilds().contains_key(guild) ==> final(self).guilds() == old(self).guilds().insert(
                guild,
                final(self).guilds()[guild],
            ) && GuildSession::skipped(old(self).guilds()[guild], final(self).guilds()[guild], r, tick),
            !old(self).guilds().contains_key(guild) ==> final(self).guilds() == old(self).guilds()
                && r == Err::<Reaction, PlaybackError>(PlaybackError::TransportUnavailable),
    {
        match lookup_slot(&self.guild_slots, guild) {
            None => Err(PlaybackError::TransportUnavailable),
            Some(slot) => {
                assert(self.sessions@[slot as int].wf());
                let mut s = self.replace_at(guild, slot, GuildSession::new());
                let r = s.skip(tick);
                self.replace_at(guild, slot, s);
                r
            },
        }
    }

    /// Leaves the voice channel of `guild` on request.
    pub fn leave(&mut self, guild: u64) -> (r: Result<Reaction, PlaybackError>)
        requires
            old(self).wf(),
        ensures
            final(self).wf(),
            old(self).guilds().contains_key(guild) ==> final(self).guilds() == old(self).guilds().insert(
                guild,
                final(self).guilds()[guild],
            ) && GuildSession::left(old(self).guilds()[guild], final(self).guilds()[guild], r),
            !old(self).guilds().contains_key(guild) ==> final(self).guilds() == old(self).guilds()
                && r == Err::<Reaction, PlaybackError>(PlaybackError::TransportUnavailable),
    {
        match lookup_slot(&self.guild_slots, guild) {
            None => Err(PlaybackError::TransportUnavailable),
            Some(slot) => {
                assert(self.sessions@[slot as int].wf());
                let mut s = self.replace_at(guild, slot, GuildSession::new());
                let r = s.leave();
                self.replace_at(guild, slot, s);
                r
            },
        }
    }

    /// Shuffles the queue of `guild`; the track playing is not in the queue
    /// and stays. `false`, and no change, for an unknown guild.
    pub fn shuffle_queue(&mut self, guild: u64) -> (r: bool)
        requires
            old(self).wf(),
        ensures
            final(self).wf(),
            r == old(self).guilds().contains_key(guild),
            !r ==> final(self).guilds() == old(self).guilds(),
            r ==> final(self).guilds() == old(self).guilds().insert(guild, final(self).guilds()[guild])
                && final(self).guilds()[guild] == (GuildSession {
                    queue: final(self).guilds()[guild].queue,
                    ..old(self).guilds()[guild]
                })
                && final(self).guilds()[guild].queue@.entries.to_multiset() == old(self).guilds()[guild].queue@.entries.to_multiset()
                && final(self).guilds()[guild].queue@.entries.len() == old(self).guilds()[guild].queue@.entries.len()
                && final(self).guilds()[guild].queue@.playing == old(self).guilds()[guild].queue@.playing
                && final(self).guilds()[guild].queue@.display == old(self).guilds()[guild].queue@.display,
    {
        match lookup_slot(&self.guild_slots, guild) {
            None => false,
            Some(slot) => {
                assert(self.sessions@[slot as int].wf());
                let mut s = self.replace_at(guild, slot, GuildSession::new());
                s.queue.shuffle();
                self.replace_at(guild, slot, s);
                true
            },
        }
    }

    /// A copy of the queue of `guild`, creating its session if new.
    pub fn get_queue(&mut self, guild: u64) -> (r: crate::queue::CrackTrackQueue)
        requires
            old(self).wf(),
        ensures
            final(self).wf(),
            final(self).guilds().contains_key(guild),
            final(self).guilds().remove(guild) == old(self).guilds().remove(guild),
            Self::prior(old(self).guilds(), guild, final(self).guilds()[guild]),
            r@ == final(self).guilds()[guild].queue@,
    {
        let slot = self.slot_of(guild);
        assert(self.guilds().remove(guild) =~= old(self).guilds().remove(guild));
        self.sessions[slot].queue.clone()
    }
}

} // verus!
