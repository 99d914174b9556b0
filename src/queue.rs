//! The ordered queue of tracks of one guild, with its rendered display.
use std::collections::VecDeque;
use vstd::prelude::*;
use vstd::string::*;

use crate::track::{opt_view, track_line, track_url, track_views, ResolvedTrack, TrackView};
use crate::EMPTY_QUEUE;

verus! {

/// Opens the display when a track is playing.
pub const NOW_PLAYING: &'static str = "Now Playing: ";

/// Opens the display when nothing is playing.
pub const NOTHING_PLAYING: &'static str = "Nothing is currently playing.";

/// Abstract value of a [`CrackTrackQueue`].
pub struct QueueView {
    pub entries: Seq<TrackView>,
    pub playing: Option<TrackView>,
    pub display: Seq<char>,
}

/// First part of a display: what plays now.
pub open spec fn display_header(playing: Option<TrackView>) -> Seq<char> {
    match playing {
        Some(t) => NOW_PLAYING@ + track_line(t),
        None => NOTHING_PLAYING@,
    }
}

/// The lines of the queued tracks, joined by line breaks.
pub open spec fn joined_lines(s: Seq<TrackView>) -> Seq<char>
    decreases s.len(),
{
    if s.len() == 0 {
        Seq::empty()
    } else if s.len() == 1 {
        track_line(s[0])
    } else {
        joined_lines(s.drop_last()) + seq!['\n'] + track_line(s.last())
    }
}

/// The display of a queue: what plays now, a blank line, then one line per
/// queued track in queue order.
pub open spec fn rendered(playing: Option<TrackView>, entries: Seq<TrackView>) -> Seq<char> {
    display_header(playing) + seq!['\n', '\n'] + joined_lines(entries)
}

/// `t` occurs in `s` as a contiguous piece.
pub open spec fn contains_text(s: Seq<char>, t: Seq<char>) -> bool {
    exists|k: int| 0 <= k && k + t.len() <= s.len() && #[trigger] s.subrange(k, k + t.len()) == t
}

/// A queue of tracks to be played, in first-in first-out order, with the
/// track now playing and a display that is rebuilt only on request.
pub struct CrackTrackQueue {
    inner: VecDeque<ResolvedTrack>,
    playing: Option<ResolvedTrack>,
    display: String,
}

impl View for CrackTrackQueue {
    type V = QueueView;

    closed spec fn view(&self) -> QueueView {
        QueueView {
            entries: track_views(self.inner@),
            playing: opt_view(self.playing),
            display: self.display@,
        }
    }
}

proof fn lemma_views_push(s: Seq<ResolvedTrack>, t: ResolvedTrack)
    ensures
        track_views(s.push(t)) == track_views(s).push(t@),
{
    assert(track_views(s.push(t)) =~= track_views(s).push(t@));
}

proof fn lemma_views_concat(a: Seq<ResolvedTrack>, b: Seq<ResolvedTrack>)
    ensures
        track_views(a + b) == track_views(a) + track_views(b),
{
    assert(track_views(a + b) =~= track_views(a) + track_views(b));
}

proof fn lemma_views_remove(s: Seq<ResolvedTrack>, i: int)
    requires
        0 <= i < s.len(),
    ensures
        track_views(s.remove(i)) == track_views(s).remove(i),
{
    assert(track_views(s.remove(i)) =~= track_views(s).remove(i));
}

proof fn lemma_views_insert(s: Seq<ResolvedTrack>, i: int, t: ResolvedTrack)
    requires
        0 <= i <= s.len(),
    ensures
        track_views(s.insert(i, t)) == track_views(s).insert(i, t@),
{
    assert(track_views(s.insert(i, t)) =~= track_views(s).insert(i, t@));
}

proof fn lemma_views_subrange(s: Seq<ResolvedTrack>, i: int, j: int)
    requires
        0 <= i <= j <= s.len(),
    ensures
        track_views(s.subrange(i, j)) == track_views(s).subrange(i, j),
{
    assert(track_views(s.subrange(i, j)) =~= track_views(s).subrange(i, j));
}

/// Two sequences with the same elements, counted with multiplicity, keep
/// that relation under any map.
pub proof fn lemma_map_multiset<A, B>(s1: Seq<A>, s2: Seq<A>, f: spec_fn(A) -> B)
    requires
        s1.to_multiset() == s2.to_multiset(),
    ensures
        s1.map_values(f).to_multiset() == s2.map_values(f).to_multiset(),
    decreases s1.len(),
{
    broadcast use vstd::seq_lib::group_to_multiset_ensures;

    if s1.len() == 0 {
        assert(s1.to_multiset().len() == 0);
        assert(s2.to_multiset().len() == s2.len());
        assert(s2.len() == 0);
        assert(s1.map_values(f) =~= Seq::<B>::empty());
        assert(s2.map_values(f) =~= Seq::<B>::empty());
    } else {
        let a = s1[0];
        assert(s1.contains(a));
        assert(s2.to_multiset().count(a) > 0);
        assert(s2.contains(a));
        let j = choose|j: int| 0 <= j < s2.len() && s2[j] == a;
        let t1 = s1.remove(0);
        let t2 = s2.remove(j);
        assert(t1.to_multiset() == s1.to_multiset().remove(a));
        assert(t2.to_multiset() == s2.to_multiset().remove(a));
        lemma_map_multiset(t1, t2, f);
        let m1 = s1.map_values(f);
        let m2 = s2.map_values(f);
        assert(m1.remove(0) =~= t1.map_values(f));
        assert(m2.remove(j) =~= t2.map_values(f));
        assert(m1.remove(0).to_multiset() == m1.to_multiset().remove(f(a)));
        assert(m2.remove(j).to_multiset() == m2.to_multiset().remove(f(a)));
        assert(m1.contains(f(a)));
        assert(m2.contains(f(a)));
        assert(m1.to_multiset().count(f(a)) > 0);
        assert(m2.to_multiset().count(f(a)) > 0);
        assert(m1.to_multiset() =~= m1.to_multiset().remove(f(a)).insert(f(a)));
        assert(m2.to_multiset() =~= m2.to_multiset().remove(f(a)).insert(f(a)));
    }
}

/// What [`CrackTrackQueue::enqueue`] of a track with view `t` does: `t`
/// joins the back, nothing else changes.
pub open spec fn enqueue_step(before: QueueView, after: QueueView, t: TrackView) -> bool {
    after == (QueueView { entries: before.entries.push(t), ..before })
}

/// What [`CrackTrackQueue::dequeue`] does, handing out `out`: the front
/// track leaves; an empty queue hands out nothing and stays.
pub open spec fn dequeue_step(before: QueueView, after: QueueView, out: Option<TrackView>) -> bool {
    &&& before.entries.len() == 0 ==> out is None && after == before
    &&& before.entries.len() > 0 ==> out == Some(before.entries[0]) && after == (QueueView {
        entries: before.entries.drop_first(),
        ..before
    })
}

proof fn lemma_enqueue_steps(qs: Seq<QueueView>, ts: Seq<TrackView>, i: int)
    requires
        qs.len() >= ts.len() + 1,
        qs[0].entries.len() == 0,
        forall|j: int| 0 <= j < ts.len() ==> #[trigger] enqueue_step(qs[j], qs[j + 1], ts[j]),
        0 <= i <= ts.len(),
    ensures
        qs[i].entries == ts.take(i),
    decreases i,
{
    if i == 0 {
        assert(qs[0].entries =~= ts.take(0));
    } else {
        lemma_enqueue_steps(qs, ts, i - 1);
        assert(enqueue_step(qs[i - 1], qs[i - 1 + 1], ts[i - 1]));
        assert(qs[i].entries =~= ts.take(i));
    }
}

proof fn lemma_dequeue_steps(
    qs: Seq<QueueView>,
    ts: Seq<TrackView>,
    outs: Seq<Option<TrackView>>,
    i: int,
)
    requires
        qs.len() == 2 * ts.len() + 2,
        outs.len() == ts.len() + 1,
        qs[ts.len() as int].entries == ts,
        forall|j: int|
            0 <= j <= ts.len() ==> #[trigger] dequeue_step(
                qs[ts.len() + j],
                qs[ts.len() + j + 1],
                outs[j],
            ),
        0 <= i <= ts.len(),
    ensures
        qs[ts.len() + i].entries == ts.skip(i),
        forall|j: int| 0 <= j < i ==> outs[j] == Some(ts[j]),
    decreases i,
{
    if i == 0 {
        assert(ts.skip(0) =~= ts);
    } else {
        lemma_dequeue_steps(qs, ts, outs, i - 1);
        assert(dequeue_step(qs[ts.len() + (i - 1)], qs[ts.len() + (i - 1) + 1], outs[i - 1]));
        assert(ts.skip(i - 1).len() > 0);
        assert(ts.skip(i - 1).drop_first() =~= ts.skip(i));
    }
}

/// First in, first out, over the calls themselves: take queue states
/// `qs[0..]`, empty at first, where the first `n` steps are enqueues of
/// `ts[0]`, ..., `ts[n-1]` and the next `n + 1` are dequeues handing out
/// `outs[0]`, ..., `outs[n]` (each step related as the contracts of
/// [`CrackTrackQueue::enqueue`] and [`CrackTrackQueue::dequeue`] state).
/// Then the dequeues hand out `ts` in order, the last one nothing, and the
/// queue ends empty.
pub proof fn lemma_fifo_calls(qs: Seq<QueueView>, ts: Seq<TrackView>, outs: Seq<Option<TrackView>>)
    requires
        qs.len() == 2 * ts.len() + 2,
        outs.len() == ts.len() + 1,
        qs[0].entries.len() == 0,
        forall|j: int| 0 <= j < ts.len() ==> #[trigger] enqueue_step(qs[j], qs[j + 1], ts[j]),
        forall|j: int|
            0 <= j <= ts.len() ==> #[trigger] dequeue_step(
                qs[ts.len() + j],
                qs[ts.len() + j + 1],
                outs[j],
            ),
    ensures
        forall|j: int| 0 <= j < ts.len() ==> outs[j] == Some(ts[j]),
        outs[ts.len() as int] is None,
        qs[2 * ts.len() as int + 1].entries.len() == 0,
{
    let n = ts.len() as int;
    lemma_enqueue_steps(qs, ts, n);
    assert(ts.take(n) =~= ts);
    lemma_dequeue_steps(qs, ts, outs, n);
    assert(dequeue_step(qs[n + n], qs[n + n + 1], outs[n]));
    assert(ts.skip(n).len() == 0);
}

/// The display stays unbuilt until it is built: starting from a queue whose
/// display is the placeholder, as [`CrackTrackQueue::new`] and
/// [`CrackTrackQueue::with_queue`] make it, every state reached by steps
/// that keep the display (as all methods but
/// [`CrackTrackQueue::build_display`] promise) still shows the placeholder.
pub proof fn lemma_display_unbuilt(qs: Seq<QueueView>)
    requires
        qs.len() > 0,
        qs[0].display == EMPTY_QUEUE@,
        forall|j: int| 0 <= j < qs.len() - 1 ==> #[trigger] qs[j + 1].display == qs[j].display,
    ensures
        forall|j: int| 0 <= j < qs.len() ==> #[trigger] qs[j].display == EMPTY_QUEUE@,
{
    assert forall|j: int| 0 <= j < qs.len() implies #[trigger] qs[j].display == EMPTY_QUEUE@ by {
        lemma_display_prefix(qs, j);
    }
}

proof fn lemma_display_prefix(qs: Seq<QueueView>, j: int)
    requires
        0 <= j < qs.len(),
        qs[0].display == EMPTY_QUEUE@,
        forall|k: int| 0 <= k < qs.len() - 1 ==> #[trigger] qs[k + 1].display == qs[k].display,
    ensures
        qs[j].display == EMPTY_QUEUE@,
    decreases j,
{
    if j > 0 {
        lemma_display_prefix(qs, j - 1);
        assert(qs[j - 1 + 1].display == qs[j - 1].display);
    }
}

/// The links of a sequence of tracks, in order.
pub open spec fn urls_of(s: Seq<TrackView>) -> Seq<Seq<char>> {
    s.map_values(|t: TrackView| track_url(t))
}

/// Shuffling keeps the links: when two queues hold the same tracks counted
/// with multiplicity, as [`CrackTrackQueue::shuffle`] promises of the queue
/// before and after, they hold the same links, counted the same way, and
/// have the same length.
pub proof fn lemma_shuffle_keeps_urls(before: Seq<TrackView>, after: Seq<TrackView>)
    requires
        after.to_multiset() == before.to_multiset(),
    ensures
        urls_of(after).to_multiset() == urls_of(before).to_multiset(),
        after.len() == before.len(),
{
    broadcast use vstd::seq_lib::group_to_multiset_ensures;

    let f = |t: TrackView| track_url(t);
    lemma_map_multiset(after, before, f);
    assert(urls_of(after) =~= after.map_values(f));
    assert(urls_of(before) =~= before.map_values(f));
    vstd::seq_lib::to_multiset_len(after);
    vstd::seq_lib::to_multiset_len(before);
}

proof fn lemma_contains_in_concat(a: Seq<char>, b: Seq<char>, t: Seq<char>)
    ensures
        contains_text(a, t) ==> contains_text(a + b, t),
        contains_text(b, t) ==> contains_text(a + b, t),
{
    if contains_text(a, t) {
        let k = choose|k: int| 0 <= k && k + t.len() <= a.len() && #[trigger] a.subrange(k, k + t.len()) == t;
        assert((a + b).subrange(k, k + t.len()) =~= a.subrange(k, k + t.len()));
        assert((a + b).subrange(k, k + t.len()) == t);
    }
    if contains_text(b, t) {
        let k = choose|k: int| 0 <= k && k + t.len() <= b.len() && #[trigger] b.subrange(k, k + t.len()) == t;
        let k2 = a.len() + k;
        assert((a + b).subrange(k2, k2 + t.len()) =~= b.subrange(k, k + t.len()));
        assert((a + b).subrange(k2, k2 + t.len()) == t);
    }
}

proof fn lemma_joined_lines_contain(s: Seq<TrackView>, i: int)
    requires
        0 <= i < s.len(),
    ensures
        contains_text(joined_lines(s), track_line(s[i])),
    decreases s.len(),
{
    if s.len() == 1 {
        let t = track_line(s[i]);
        assert(joined_lines(s).subrange(0, 0 + t.len() as int) =~= t);
    } else {
        let front = joined_lines(s.drop_last()) + seq!['\n'];
        if i < s.len() - 1 {
            lemma_joined_lines_contain(s.drop_last(), i);
            lemma_contains_in_concat(joined_lines(s.drop_last()), seq!['\n'], track_line(s[i]));
            lemma_contains_in_concat(front, track_line(s.last()), track_line(s[i]));
        } else {
            let t = track_line(s[i]);
            assert(t.subrange(0, 0 + t.len() as int) =~= t);
            lemma_contains_in_concat(front, t, t);
        }
    }
}

/// After the display is rebuilt it shows the line of every queued track.
pub proof fn lemma_render_lists_entries(playing: Option<TrackView>, entries: Seq<TrackView>, i: int)
    requires
        0 <= i < entries.len(),
    ensures
        contains_text(rendered(playing, entries), track_line(entries[i])),
{
    lemma_joined_lines_contain(entries, i);
    lemma_contains_in_concat(display_header(playing) + seq!['\n', '\n'], joined_lines(entries), track_line(entries[i]));
}

/// Relies on rand's `SliceRandom::shuffle` with the thread-local generator:
/// it only swaps elements, so the result holds the same elements.
#[verifier::external_body]
fn shuffle_in_place(q: &mut VecDeque<ResolvedTrack>)
    ensures
        final(q)@.to_multiset() == old(q)@.to_multiset(),
        final(q)@.len() == old(q)@.len(),
{
    rand::seq::SliceRandom::shuffle(q.make_contiguous(), &mut rand::rng());
}

impl Clone for CrackTrackQueue {
    /// An independent copy: changing one leaves the other as it was.
    fn clone(&self) -> (r: Self)
        ensures
            r@ == self@,
    {
        CrackTrackQueue {
            inner: self.get_queue(),
            playing: self.now_playing(),
            display: self.display.clone(),
        }
    }
}

impl CrackTrackQueue {
    /// An empty queue, nothing playing, display not built.
    pub fn new() -> (r: Self)
        ensures
            r@ == (QueueView { entries: Seq::empty(), playing: None, display: EMPTY_QUEUE@ }),
    {
        let r = CrackTrackQueue {
            inner: VecDeque::new(),
            playing: None,
            display: String::from_str(EMPTY_QUEUE),
        };
        assert(r@.entries =~= Seq::<TrackView>::empty());
        r
    }

    /// A queue holding `queue`, nothing playing, display not built.
    pub fn with_queue(queue: VecDeque<ResolvedTrack>) -> (r: Self)
        ensures
            r@ == (QueueView { entries: track_views(queue@), playing: None, display: EMPTY_QUEUE@ }),
    {
        CrackTrackQueue { inner: queue, playing: None, display: String::from_str(EMPTY_QUEUE) }
    }

    /// Adds `track` at the back and hands a copy of it back.
    pub fn enqueue(&mut self, track: ResolvedTrack) -> (r: ResolvedTrack)
        ensures
            r@ == track@,
            enqueue_step(old(self)@, final(self)@, track@),
    {
        let r = track.clone();
        self.push_back(track);
        r
    }

    /// Takes the track at the front.
    pub fn dequeue(&mut self) -> (r: Option<ResolvedTrack>)
        ensures
            dequeue_step(old(self)@, final(self)@, opt_view(r)),
    {
        self.pop_front()
    }

    /// Removes every queued track; what plays and the display stay.
    pub fn clear(&mut self)
        ensures
            final(self)@ == (QueueView { entries: Seq::empty(), ..old(self)@ }),
    {
        self.inner.clear();
        assert(self@.entries =~= Seq::<TrackView>::empty());
    }

    /// A copy of the queued tracks.
    pub fn get_queue(&self) -> (r: VecDeque<ResolvedTrack>)
        ensures
            track_views(r@) == self@.entries,
    {
        let mut r: VecDeque<ResolvedTrack> = VecDeque::new();
        let mut i: usize = 0;
        while i < self.inner.len()
            invariant
                i <= self.inner@.len(),
                track_views(r@) == track_views(self.inner@).subrange(0, i as int),
            decreases self.inner@.len() - i,
        {
            let t = self.inner[i].clone();
            proof {
                lemma_views_push(r@, t);
            }
            r.push_back(t);
            assert(track_views(self.inner@).subrange(0, i + 1) =~= track_views(
                self.inner@,
            ).subrange(0, i as int).push(self.inner@[i as int]@));
            i = i + 1;
        }
        assert(track_views(self.inner@).subrange(0, i as int) =~= track_views(self.inner@));
        r
    }

    /// The display as last built; nothing is recomputed.
    pub fn get_display(&self) -> (r: String)
        ensures
            r@ == self@.display,
    {
        self.display.clone()
    }

    /// Rebuilds the display from the track now playing and the queued tracks.
    pub fn build_display(&mut self)
        ensures
            final(self)@ == (QueueView {
                display: rendered(old(self)@.playing, old(self)@.entries),
                ..old(self)@
            }),
    {
        let mut s = match &self.playing {
            Some(t) => {
                let mut h = String::from_str(NOW_PLAYING);
                let line = t.describe();
                h.append(line.as_str());
                h
            },
            None => String::from_str(NOTHING_PLAYING),
        };
        s.append("\n\n");
        proof {
            reveal_strlit("\n\n");
            reveal_strlit("\n");
        }
        let ghost entries = self@.entries;
        assert(joined_lines(entries.subrange(0, 0)) =~= Seq::<char>::empty());
        let mut i: usize = 0;
        while i < self.inner.len()
            invariant
                entries == track_views(self.inner@),
                i <= self.inner@.len(),
                s@ == display_header(opt_view(self.playing)) + seq!['\n', '\n'] + joined_lines(
                    entries.subrange(0, i as int),
                ),
            decreases self.inner@.len() - i,
        {
            let ghost before = s@;
            if i > 0 {
                s.append("\n");
            }
            let line = self.inner[i].describe();
            s.append(line.as_str());
            let ghost next = entries.subrange(0, i + 1);
            proof {
                reveal_strlit("\n");
                assert(entries[i as int] == self.inner@[i as int]@);
                assert(next.drop_last() =~= entries.subrange(0, i as int));
                assert(next.last() == entries[i as int]);
                if i == 0 {
                    assert(joined_lines(next) == track_line(entries[0]));
                    assert(joined_lines(entries.subrange(0, 0)) =~= Seq::<char>::empty());
                } else {
                    assert(joined_lines(next) == joined_lines(entries.subrange(0, i as int)) + seq!['\n']
                        + track_line(entries[i as int]));
                }
                assert(s@ =~= display_header(opt_view(self.playing)) + seq!['\n', '\n'] + joined_lines(next));
            }
            i = i + 1;
        }
        assert(entries.subrange(0, i as int) =~= entries);
        self.display = s;
    }

    /// Number of queued tracks.
    pub fn len(&self) -> (r: usize)
        ensures
            r == self@.entries.len(),
    {
        self.inner.len()
    }

    /// Whether no track is queued.
    pub fn is_empty(&self) -> (r: bool)
        ensures
            r == (self@.entries.len() == 0),
    {
        self.inner.len() == 0
    }

    /// A copy of the track at `index`, counted from the front; `None` past
    /// the end.
    pub fn get(&self, index: usize) -> (r: Option<ResolvedTrack>)
        ensures
            index < self@.entries.len() ==> r is Some && r->0@ == self@.entries[index as int],
            index >= self@.entries.len() ==> r is None,
    {
        if index < self.inner.len() {
            Some(self.inner[index].clone())
        } else {
            None
        }
    }

    /// Takes out the track at `index`; `None`, and no change, past the end.
    pub fn remove(&mut self, index: usize) -> (r: Option<ResolvedTrack>)
        ensures
            index < old(self)@.entries.len() ==> r is Some && r->0@ == old(self)@.entries[index as int]
                && final(self)@ == (QueueView {
                    entries: old(self)@.entries.remove(index as int),
                    ..old(self)@
                }),
            index >= old(self)@.entries.len() ==> r is None && final(self)@ == old(self)@,
    {
        let ghost before = self.inner@;
        let r = self.inner.remove(index);
        proof {
            if index < before.len() {
                lemma_views_remove(before, index as int);
            }
        }
        r
    }

    /// Adds `track` at the back.
    pub fn push_back(&mut self, track: ResolvedTrack)
        ensures
            final(self)@ == (QueueView { entries: old(self)@.entries.push(track@), ..old(self)@ }),
    {
        proof {
            lemma_views_push(self.inner@, track);
        }
        self.inner.push_back(track);
    }

    /// Adds `track` at the front.
    pub fn push_front(&mut self, track: ResolvedTrack)
        ensures
            final(self)@ == (QueueView { entries: seq![track@] + old(self)@.entries, ..old(self)@ }),
    {
        proof {
            lemma_views_concat(seq![track], self.inner@);
            assert(track_views(seq![track]) =~= seq![track@]);
        }
        self.inner.push_front(track);
    }

    /// Takes the track at the back.
    pub fn pop_back(&mut self) -> (r: Option<ResolvedTrack>)
        ensures
            old(self)@.entries.len() == 0 ==> r is None && final(self)@ == old(self)@,
            old(self)@.entries.len() > 0 ==> r is Some && r->0@ == old(self)@.entries.last()
                && final(self)@ == (QueueView { entries: old(self)@.entries.drop_last(), ..old(self)@ }),
    {
        let ghost before = self.inner@;
        let r = self.inner.pop_back();
        proof {
            if before.len() > 0 {
                lemma_views_subrange(before, 0, before.len() - 1);
                assert(track_views(before).drop_last() =~= track_views(before).subrange(0, before.len() - 1));
            }
        }
        r
    }

    /// Takes the track at the front.
    pub fn pop_front(&mut self) -> (r: Option<ResolvedTrack>)
        ensures
            old(self)@.entries.len() == 0 ==> r is None && final(self)@ == old(self)@,
            old(self)@.entries.len() > 0 ==> r is Some && r->0@ == old(self)@.entries[0]
                && final(self)@ == (QueueView { entries: old(self)@.entries.drop_first(), ..old(self)@ }),
    {
        let ghost before = self.inner@;
        let r = self.inner.pop_front();
        proof {
            if before.len() > 0 {
                lemma_views_subrange(before, 1, before.len() as int);
                assert(track_views(before).drop_first() =~= track_views(before).subrange(1, before.len() as int));
            }
        }
        r
    }

    /// Puts `track` at `index`, moving later tracks back by one. Past the
    /// end nothing changes, the track is dropped and `false` comes back.
    pub fn insert(&mut self, index: usize, track: ResolvedTrack) -> (r: bool)
        ensures
            r == (index <= old(self)@.entries.len()),
            r ==> final(self)@ == (QueueView {
                entries: old(self)@.entries.insert(index as int, track@),
                ..old(self)@
            }),
            !r ==> final(self)@ == old(self)@,
    {
        if index <= self.inner.len() {
            proof {
                lemma_views_insert(self.inner@, index as int, track);
            }
            self.inner.insert(index, track);
            true
        } else {
            false
        }
    }

    /// Adds `tracks` at the back, in their order.
    pub fn append_vec(&mut self, tracks: Vec<ResolvedTrack>)
        ensures
            final(self)@ == (QueueView { entries: old(self)@.entries + track_views(tracks@), ..old(self)@ }),
    {
        let ghost start = self.inner@;
        let mut i: usize = 0;
        while i < tracks.len()
            invariant
                i <= tracks@.len(),
                track_views(self.inner@) == track_views(start) + track_views(tracks@.subrange(0, i as int)),
                self.playing == old(self).playing,
                self.display == old(self).display,
            decreases tracks@.len() - i,
        {
            let t = tracks[i].clone();
            proof {
                lemma_views_push(self.inner@, t);
                lemma_views_push(tracks@.subrange(0, i as int), tracks@[i as int]);
                assert(tracks@.subrange(0, i as int).push(tracks@[i as int]) =~= tracks@.subrange(0, i + 1));
            }
            self.inner.push_back(t);
            i = i + 1;
        }
        assert(tracks@.subrange(0, i as int) =~= tracks@);
    }

    /// Moves every track of `other` to the back of this queue, in order.
    pub fn append(&mut self, other: &mut VecDeque<ResolvedTrack>)
        ensures
            final(self)@ == (QueueView { entries: old(self)@.entries + track_views(old(other)@), ..old(self)@ }),
            final(other)@.len() == 0,
    {
        proof {
            lemma_views_concat(self.inner@, other@);
        }
        self.inner.append(other);
    }

    /// Puts the queued tracks in a random order; no track is lost or added.
    pub fn shuffle(&mut self)
        ensures
            final(self)@.entries.to_multiset() == old(self)@.entries.to_multiset(),
            final(self)@.entries.len() == old(self)@.entries.len(),
            final(self)@.playing == old(self)@.playing,
            final(self)@.display == old(self)@.display,
    {
        let ghost before = self.inner@;
        shuffle_in_place(&mut self.inner);
        proof {
            lemma_map_multiset(self.inner@, before, |t: ResolvedTrack| t@);
        }
    }

    /// Adds a copy of the queued tracks to the back of `other`.
    pub fn append_self_to_other(&self, other: &mut VecDeque<ResolvedTrack>)
        ensures
            track_views(final(other)@) == track_views(old(other)@) + self@.entries,
    {
        let mut copy = self.get_queue();
        proof {
            lemma_views_concat(other@, copy@);
        }
        other.append(&mut copy);
    }

    /// A copy of the track now playing.
    pub fn now_playing(&self) -> (r: Option<ResolvedTrack>)
        ensures
            opt_view(r) == self@.playing,
    {
        match &self.playing {
            Some(t) => Some(t.clone()),
            None => None,
        }
    }

    /// Records `track` as the one now playing.
    pub fn set_now_playing(&mut self, track: Option<ResolvedTrack>)
        ensures
            final(self)@ == (QueueView { playing: opt_view(track), ..old(self)@ }),
    {
        self.playing = track;
    }
}

} // verus!
