//! Turning a query into tracks. Resolution needs an outside search and fetch
//! service; a [`Resolution`] names the request to make, takes the reply, and
//! in the end hands out the tracks or a typed error.
use vstd::prelude::*;

use crate::track::{
    clone_opt_string, metadata_query, track_views, MetadataView, Query, QueryView,
    ResolvedTrack, SourceView, TrackMetadata, TrackView,
};
use crate::DEFAULT_PLAYLIST_LIMIT;

verus! {

/// Why a query gave no tracks.
#[derive(Clone, Copy, Debug, PartialEq, Eq, Structural)]
pub enum ResolveError {
    /// The search or the direct fetch found nothing.
    NotFound,
    /// The playlist exists and holds no entries.
    EmptyPlaylist,
    /// The query is of a kind the resolver does not handle.
    UnsupportedQuery,
    /// The service failed or answered out of turn.
    ResolutionFailed,
}

/// What a batch does with an item that cannot be resolved.
#[derive(Clone, Copy, Debug, PartialEq, Eq, Structural)]
pub enum BatchPolicy {
    /// One failed item fails the whole batch.
    AllOrNothing,
    /// Failed items are left out; the batch fails only if none resolves.
    SkipFailed,
}

/// One item to resolve: a direct link, or a text whose best search hit is
/// taken.
pub enum Lookup {
    Link(String),
    Search(String),
}

/// Abstract value of a [`Lookup`].
pub enum LookupView {
    Link(Seq<char>),
    Search(Seq<char>),
}

impl View for Lookup {
    type V = LookupView;

    open spec fn view(&self) -> LookupView {
        match self {
            Lookup::Link(u) => LookupView::Link(u@),
            Lookup::Search(k) => LookupView::Search(k@),
        }
    }
}

/// An entry of a fetched playlist.
pub struct PlaylistEntry {
    pub url: String,
    pub title: Option<String>,
    pub duration_secs: Option<u64>,
}

/// Abstract value of a [`PlaylistEntry`].
pub struct EntryView {
    pub url: Seq<char>,
    pub title: Option<Seq<char>>,
    pub duration_secs: Option<u64>,
}

impl View for PlaylistEntry {
    type V = EntryView;

    open spec fn view(&self) -> EntryView {
        EntryView {
            url: self.url@,
            title: match self.title {
                Some(t) => Some(t@),
                None => None,
            },
            duration_secs: self.duration_secs,
        }
    }
}

/// A request to the search and fetch service.
pub enum FetchRequest {
    /// Fetch the metadata of one video.
    Video(String),
    /// Search, and report the link of the best hit.
    SearchBest(String),
    /// Fetch up to the given number of entries of a playlist.
    Playlist(String, u64),
}

/// Abstract value of a [`FetchRequest`].
pub enum RequestView {
    Video(Seq<char>),
    SearchBest(Seq<char>),
    Playlist(Seq<char>, u64),
}

impl View for FetchRequest {
    type V = RequestView;

    open spec fn view(&self) -> RequestView {
        match self {
            FetchRequest::Video(u) => RequestView::Video(u@),
            FetchRequest::SearchBest(k) => RequestView::SearchBest(k@),
            FetchRequest::Playlist(u, n) => RequestView::Playlist(u@, *n),
        }
    }
}

/// The service's answer to the last request.
pub enum FetchReply {
    /// The video exists; its metadata.
    Video(TrackMetadata),
    /// The link of the best search hit.
    SearchHit(String),
    /// The playlist's entries.
    Playlist(Vec<PlaylistEntry>),
    /// The service reports no such video, or no search hit.
    NotFound,
    /// The service failed.
    Failed,
}

/// Abstract value of a [`FetchReply`].
pub enum ReplyView {
    Video(MetadataView),
    SearchHit(Seq<char>),
    Playlist(Seq<EntryView>),
    NotFound,
    Failed,
}

impl View for FetchReply {
    type V = ReplyView;

    open spec fn view(&self) -> ReplyView {
        match self {
            FetchReply::Video(m) => ReplyView::Video(m@),
            FetchReply::SearchHit(u) => ReplyView::SearchHit(u@),
            FetchReply::Playlist(es) => ReplyView::Playlist(es@.map_values(|e: PlaylistEntry| e@)),
            FetchReply::NotFound => ReplyView::NotFound,
            FetchReply::Failed => ReplyView::Failed,
        }
    }
}

/// Where a resolution stands.
#[derive(Clone, Copy, Debug, PartialEq, Eq, Structural)]
pub enum Stage {
    /// Working through the items in order.
    Items,
    /// Waiting for a playlist.
    Playlist,
    /// Finished; the tracks or the error are final.
    Done,
}

/// Abstract value of a [`Resolution`].
pub struct ResolutionView {
    pub policy: BatchPolicy,
    pub items: Seq<LookupView>,
    /// Index of the item in progress.
    pub next: nat,
    /// Link found by searching for the item in progress, to be fetched.
    pub found: Option<Seq<char>>,
    pub playlist: Seq<char>,
    pub limit: u64,
    pub tracks: Seq<TrackView>,
    pub stage: Stage,
    pub error: Option<ResolveError>,
}

/// The query a track made from an item carries.
pub open spec fn origin_of(l: LookupView) -> QueryView {
    match l {
        LookupView::Link(u) => QueryView::VideoLink(u),
        LookupView::Search(k) => QueryView::Keywords(k),
    }
}

/// The source reference a new track for `q` gets.
pub open spec fn deferred_source(q: QueryView) -> Option<SourceView> {
    match q {
        QueryView::VideoLink(u) => Some(SourceView { url: u, opened: false }),
        _ => None,
    }
}

/// Metadata fetched from `link`, with the link filled in if it was missing.
pub open spec fn with_link(m: MetadataView, link: Seq<char>) -> MetadataView {
    if m.source_url is Some {
        m
    } else {
        MetadataView { source_url: Some(link), ..m }
    }
}

/// The track made from item `l`, fetched from `link` with metadata `m`.
pub open spec fn item_track(l: LookupView, link: Seq<char>, m: MetadataView) -> TrackView {
    TrackView {
        query: origin_of(l),
        metadata: Some(with_link(m, link)),
        video: deferred_source(origin_of(l)),
        user_id: None,
    }
}

/// The track made from a playlist entry: its link is known at once.
pub open spec fn entry_track(e: EntryView) -> TrackView {
    TrackView {
        query: QueryView::VideoLink(e.url),
        metadata: Some(
            MetadataView {
                title: e.title,
                track: None,
                artist: None,
                source_url: Some(e.url),
                duration_secs: e.duration_secs,
            },
        ),
        video: Some(SourceView { url: e.url, opened: false }),
        user_id: None,
    }
}

/// The track made from caller-supplied metadata, without any search.
pub open spec fn prebuilt_track(m: MetadataView) -> TrackView {
    TrackView { query: QueryView::PrebuiltSource(m), metadata: Some(m), video: None, user_id: None }
}

/// The items a query stands for, one per search or link.
pub open spec fn plan_items(q: QueryView) -> Seq<LookupView> {
    match q {
        QueryView::VideoLink(u) => seq![LookupView::Link(u)],
        QueryView::Keywords(k) => seq![LookupView::Search(k)],
        QueryView::KeywordList(ks) => ks.map_values(|k: Seq<char>| LookupView::Search(k)),
        QueryView::MappedTracks(ms) => ms.map_values(
            |m: MetadataView| LookupView::Search(metadata_query(m)),
        ),
        _ => Seq::empty(),
    }
}

/// The state in which the resolution of playlist `u`, capped at `limit`
/// entries, starts. A cap of zero asks for nothing: no query to resolve.
pub open spec fn playlist_started(u: Seq<char>, limit: u64, policy: BatchPolicy) -> ResolutionView {
    let base = ResolutionView {
        policy,
        items: Seq::empty(),
        next: 0,
        found: None,
        playlist: Seq::empty(),
        limit: 0,
        tracks: Seq::empty(),
        stage: Stage::Done,
        error: None,
    };
    if limit == 0 {
        ResolutionView { error: Some(ResolveError::UnsupportedQuery), ..base }
    } else {
        ResolutionView { playlist: u, limit, stage: Stage::Playlist, ..base }
    }
}

/// The state in which the resolution of `q` starts.
pub open spec fn started(q: QueryView, policy: BatchPolicy) -> ResolutionView {
    let base = ResolutionView {
        policy,
        items: Seq::empty(),
        next: 0,
        found: None,
        playlist: Seq::empty(),
        limit: 0,
        tracks: Seq::empty(),
        stage: Stage::Done,
        error: None,
    };
    match q {
        QueryView::PlaylistLink(u) => playlist_started(u, DEFAULT_PLAYLIST_LIMIT, policy),
        QueryView::PrebuiltSource(m) => ResolutionView { tracks: seq![prebuilt_track(m)], ..base },
        _ => if plan_items(q).len() == 0 {
            ResolutionView { error: Some(ResolveError::NotFound), ..base }
        } else {
            ResolutionView { items: plan_items(q), stage: Stage::Items, ..base }
        },
    }
}

/// The request a resolution in state `v` waits on; `None` once finished.
pub open spec fn request_of(v: ResolutionView) -> Option<RequestView> {
    match v.stage {
        Stage::Done => None,
        Stage::Playlist => Some(RequestView::Playlist(v.playlist, v.limit)),
        Stage::Items => match v.found {
            Some(l) => Some(RequestView::Video(l)),
            None => match v.items[v.next as int] {
                LookupView::Link(u) => Some(RequestView::Video(u)),
                LookupView::Search(k) => Some(RequestView::SearchBest(k)),
            },
        },
    }
}

/// The item in progress is finished, leaving `tracks`; the next one starts,
/// or the batch ends, failing if nothing resolved.
pub open spec fn item_done(v: ResolutionView, tracks: Seq<TrackView>) -> ResolutionView {
    if v.next + 1 == v.items.len() {
        ResolutionView {
            next: v.next + 1,
            found: None,
            tracks,
            stage: Stage::Done,
            error: if tracks.len() == 0 {
                Some(ResolveError::NotFound)
            } else {
                None
            },
            ..v
        }
    } else {
        ResolutionView { next: v.next + 1, found: None, tracks, ..v }
    }
}

/// The item in progress failed with `e`.
pub open spec fn item_failed(v: ResolutionView, e: ResolveError) -> ResolutionView {
    match v.policy {
        BatchPolicy::AllOrNothing => ResolutionView {
            found: None,
            stage: Stage::Done,
            error: Some(e),
            ..v
        },
        BatchPolicy::SkipFailed => item_done(v, v.tracks),
    }
}

/// The error a reply other than the awaited one stands for.
pub open spec fn reply_error(r: ReplyView) -> ResolveError {
    match r {
        ReplyView::NotFound => ResolveError::NotFound,
        _ => ResolveError::ResolutionFailed,
    }
}

/// The first `limit` entries of `es`, or all of them if fewer.
pub open spec fn capped(es: Seq<EntryView>, limit: u64) -> Seq<EntryView> {
    if es.len() <= limit {
        es
    } else {
        es.take(limit as int)
    }
}

/// The state after reply `r` to the request of state `v`.
pub open spec fn step(v: ResolutionView, r: ReplyView) -> ResolutionView {
    match v.stage {
        Stage::Done => v,
        Stage::Playlist => match r {
            ReplyView::Playlist(es) => if es.len() == 0 {
                ResolutionView { stage: Stage::Done, error: Some(ResolveError::EmptyPlaylist), ..v }
            } else {
                ResolutionView {
                    stage: Stage::Done,
                    tracks: capped(es, v.limit).map_values(|e: EntryView| entry_track(e)),
                    ..v
                }
            },
            _ => ResolutionView { stage: Stage::Done, error: Some(reply_error(r)), ..v },
        },
        Stage::Items => {
            let item = v.items[v.next as int];
            match (v.found, item) {
                (None, LookupView::Search(_)) => match r {
                    ReplyView::SearchHit(l) => ResolutionView { found: Some(l), ..v },
                    _ => item_failed(v, reply_error(r)),
                },
                _ => {
                    let link = match v.found {
                        Some(l) => l,
                        None => match item {
                            LookupView::Link(u) => u,
                            LookupView::Search(k) => k,
                        },
                    };
                    match r {
                        ReplyView::Video(m) => item_done(v, v.tracks.push(item_track(item, link, m))),
                        _ => item_failed(v, reply_error(r)),
                    }
                },
            }
        },
    }
}

/// Consistency of a resolution's state; a finished one without error holds
/// at least one track.
pub open spec fn resolution_wf(v: ResolutionView) -> bool {
    &&& v.next <= v.items.len()
    &&& v.stage == Stage::Items ==> v.next < v.items.len()
    &&& v.found is Some ==> v.stage == Stage::Items && v.items[v.next as int] is Search
    &&& v.stage == Stage::Playlist ==> v.limit > 0
    &&& v.stage == Stage::Done && v.error is None ==> v.tracks.len() > 0
    &&& v.stage != Stage::Done ==> v.error is None
}

/// The state after the replies `rs`, in order, starting from `v`.
pub open spec fn run(v: ResolutionView, rs: Seq<ReplyView>) -> ResolutionView
    decreases rs.len(),
{
    if rs.len() == 0 {
        v
    } else {
        run(step(v, rs[0]), rs.drop_first())
    }
}

proof fn lemma_step_wf(v: ResolutionView, r: ReplyView)
    requires
        resolution_wf(v),
    ensures
        resolution_wf(step(v, r)),
{
    if v.stage == Stage::Playlist {
        if let ReplyView::Playlist(es) = r {
            if es.len() > 0 {
                assert(capped(es, v.limit).len() > 0);
            }
        }
    }
}

/// Resolution is total: whatever the service replies, a resolution that
/// finishes without error holds at least one track, so an empty result is
/// never a success; an empty playlist is the error
/// [`ResolveError::EmptyPlaylist`].
pub proof fn lemma_resolution_totality(q: QueryView, policy: BatchPolicy, rs: Seq<ReplyView>)
    ensures
        resolution_wf(run(started(q, policy), rs)),
        run(started(q, policy), rs).stage == Stage::Done && run(started(q, policy), rs).error is None
            ==> run(started(q, policy), rs).tracks.len() > 0,
{
    lemma_started_wf(q, policy);
    lemma_run_wf(started(q, policy), rs);
}

proof fn lemma_started_wf(q: QueryView, policy: BatchPolicy)
    ensures
        resolution_wf(started(q, policy)),
{
}

proof fn lemma_run_wf(v: ResolutionView, rs: Seq<ReplyView>)
    requires
        resolution_wf(v),
    ensures
        resolution_wf(run(v, rs)),
    decreases rs.len(),
{
    if rs.len() > 0 {
        lemma_step_wf(v, rs[0]);
        lemma_run_wf(step(v, rs[0]), rs.drop_first());
    }
}

/// The resolution of one query, driven one request at a time.
pub struct Resolution {
    policy: BatchPolicy,
    items: Vec<Lookup>,
    next: usize,
    found: Option<String>,
    playlist: String,
    limit: u64,
    tracks: Vec<ResolvedTrack>,
    stage: Stage,
    error: Option<ResolveError>,
}

impl View for Resolution {
    type V = ResolutionView;

    closed spec fn view(&self) -> ResolutionView {
        ResolutionView {
            policy: self.policy,
            items: self.items@.map_values(|l: Lookup| l@),
            next: self.next as nat,
            found: match self.found {
                Some(l) => Some(l@),
                None => None,
            },
            playlist: self.playlist@,
            limit: self.limit,
            tracks: track_views(self.tracks@),
            stage: self.stage,
            error: self.error,
        }
    }
}


fn search_items(ks: &Vec<String>) -> (r: Vec<Lookup>)
    ensures
        r@.map_values(|l: Lookup| l@) == ks@.map_values(|k: String| k@).map_values(
            |k: Seq<char>| LookupView::Search(k),
        ),
{
    let mut r: Vec<Lookup> = Vec::new();
    let mut i: usize = 0;
    while i < ks.len()
        invariant
            i <= ks@.len(),
            r@.len() == i,
            forall|j: int| 0 <= j < i ==> #[trigger] r@[j]@ == LookupView::Search(ks@[j]@),
        decreases ks@.len() - i,
    {
        r.push(Lookup::Search(ks[i].clone()));
        i = i + 1;
    }
    assert(r@.map_values(|l: Lookup| l@) =~= ks@.map_values(|k: String| k@).map_values(
        |k: Seq<char>| LookupView::Search(k),
    ));
    r
}

fn mapped_items(ms: &Vec<TrackMetadata>) -> (r: Vec<Lookup>)
    ensures
        r@.map_values(|l: Lookup| l@) == ms@.map_values(|m: TrackMetadata| m@).map_values(
            |m: MetadataView| LookupView::Search(metadata_query(m)),
        ),
{
    let mut r: Vec<Lookup> = Vec::new();
    let mut i: usize = 0;
    while i < ms.len()
        invariant
            i <= ms@.len(),
            r@.len() == i,
            forall|j: int|
                0 <= j < i ==> #[trigger] r@[j]@ == LookupView::Search(metadata_query(ms@[j]@)),
        decreases ms@.len() - i,
    {
        r.push(Lookup::Search(ms[i].build_query()));
        i = i + 1;
    }
    assert(r@.map_values(|l: Lookup| l@) =~= ms@.map_values(|m: TrackMetadata| m@).map_values(
        |m: MetadataView| LookupView::Search(metadata_query(m)),
    ));
    r
}

fn entry_tracks(es: &Vec<PlaylistEntry>, limit: u64) -> (r: Vec<ResolvedTrack>)
    ensures
        track_views(r@) == capped(es@.map_values(|e: PlaylistEntry| e@), limit).map_values(
            |e: EntryView| entry_track(e),
        ),
{
    let ghost all = es@.map_values(|e: PlaylistEntry| e@);
    let n: usize = if (es.len() as u64) <= limit {
        es.len()
    } else {
        limit as usize
    };
    let ghost want = capped(all, limit).map_values(|e: EntryView| entry_track(e));
    assert(want.len() == n);
    let mut r: Vec<ResolvedTrack> = Vec::new();
    let mut i: usize = 0;
    while i < n
        invariant
            n <= es@.len(),
            i <= n,
            want.len() == n,
            want == capped(all, limit).map_values(|e: EntryView| entry_track(e)),
            all == es@.map_values(|e: PlaylistEntry| e@),
            track_views(r@) == want.take(i as int),
        decreases n - i,
    {
        let e = &es[i];
        let meta = TrackMetadata {
            title: clone_opt_string(&e.title),
            track: None,
            artist: None,
            source_url: Some(e.url.clone()),
            duration_secs: e.duration_secs,
        };
        let t = ResolvedTrack::new(Query::VideoLink(e.url.clone())).with_metadata(meta);
        let ghost before = r@;
        r.push(t);
        assert(capped(all, limit)[i as int] == all[i as int]);
        assert(all[i as int] == es@[i as int]@);
        assert(t@ == entry_track(es@[i as int]@));
        assert(want[i as int] == entry_track(all[i as int]));
        assert(track_views(r@) =~= track_views(before).push(t@));
        assert(want.take(i + 1) =~= want.take(i as int).push(want[i as int]));
        assert(track_views(r@) =~= want.take(i + 1));
        i = i + 1;
    }
    assert(want.take(n as int) =~= want);
    r
}

impl Resolution {
    /// Consistency of the state; see [`resolution_wf`].
    pub closed spec fn wf(&self) -> bool {
        &&& resolution_wf(self@)
        &&& self.next <= self.items@.len()
    }

    /// Starts resolving `query`. A prebuilt source is resolved at once; an
    /// empty list of keywords or tracks finds nothing.
    pub fn start(query: Query, policy: BatchPolicy) -> (r: Self)
        ensures
            r.wf(),
            r@ == started(query@, policy),
    {
        let base = Resolution {
            policy,
            items: Vec::new(),
            next: 0,
            found: None,
            playlist: String::new(),
            limit: 0,
            tracks: Vec::new(),
            stage: Stage::Done,
            error: None,
        };
        assert(base@.items =~= Seq::<LookupView>::empty());
        assert(base@.tracks =~= Seq::<TrackView>::empty());
        let items = match &query {
            Query::VideoLink(u) => vec![Lookup::Link(u.clone())],
            Query::Keywords(k) => vec![Lookup::Search(k.clone())],
            Query::KeywordList(ks) => search_items(ks),
            Query::MappedTracks(ms) => mapped_items(ms),
            Query::PlaylistLink(u) => {
                return Self::start_playlist(u.clone(), DEFAULT_PLAYLIST_LIMIT, policy);
            },
            Query::PrebuiltSource(m) => {
                let t = ResolvedTrack {
                    query: Query::PrebuiltSource(m.clone()),
                    metadata: Some(m.clone()),
                    video: None,
                    user_id: None,
                };
                let r = Resolution { tracks: vec![t], ..base };
                assert(r@.tracks =~= seq![prebuilt_track(query@->PrebuiltSource_0)]);
                return r;
            },
        };
        assert(items@.map_values(|l: Lookup| l@) =~= plan_items(query@));
        if items.len() == 0 {
            Resolution { error: Some(ResolveError::NotFound), ..base }
        } else {
            Resolution { items, stage: Stage::Items, ..base }
        }
    }

    /// Starts resolving playlist `url`, taking at most `limit` entries.
    pub fn start_playlist(url: String, limit: u64, policy: BatchPolicy) -> (r: Self)
        ensures
            r.wf(),
            r@ == playlist_started(url@, limit, policy),
    {
        let base = Resolution {
            policy,
            items: Vec::new(),
            next: 0,
            found: None,
            playlist: String::new(),
            limit: 0,
            tracks: Vec::new(),
            stage: Stage::Done,
            error: None,
        };
        assert(base@.items =~= Seq::<LookupView>::empty());
        assert(base@.tracks =~= Seq::<TrackView>::empty());
        if limit == 0 {
            Resolution { error: Some(ResolveError::UnsupportedQuery), ..base }
        } else {
            Resolution { playlist: url, limit, stage: Stage::Playlist, ..base }
        }
    }

    /// The request to make next; `None` once the resolution is finished.
    pub fn next_request(&self) -> (r: Option<FetchRequest>)
        requires
            self.wf(),
        ensures
            match (r, request_of(self@)) {
                (Some(q), Some(w)) => q@ == w,
                (None, None) => true,
                _ => false,
            },
    {
        match self.stage {
            Stage::Done => None,
            Stage::Playlist => Some(FetchRequest::Playlist(self.playlist.clone(), self.limit)),
            Stage::Items => match &self.found {
                Some(l) => Some(FetchRequest::Video(l.clone())),
                None => match &self.items[self.next] {
                    Lookup::Link(u) => Some(FetchRequest::Video(u.clone())),
                    Lookup::Search(k) => Some(FetchRequest::SearchBest(k.clone())),
                },
            },
        }
    }

    fn finish_item(&mut self)
        requires
            old(self).wf(),
            old(self).stage == Stage::Items,
            old(self)@.stage == Stage::Items,
        ensures
            final(self).wf(),
            final(self)@ == item_done(old(self)@, old(self)@.tracks),
    {
        let n = self.items.len();
        assert(self@.items.len() == n);
        self.next = self.next + 1;
        self.found = None;
        if self.next == self.items.len() {
            self.stage = Stage::Done;
            if self.tracks.len() == 0 {
                self.error = Some(ResolveError::NotFound);
            }
        }
    }

    fn fail_item(&mut self, e: ResolveError)
        requires
            old(self).wf(),
            old(self)@.stage == Stage::Items,
        ensures
            final(self).wf(),
            final(self)@ == item_failed(old(self)@, e),
    {
        match self.policy {
            BatchPolicy::AllOrNothing => {
                self.found = None;
                self.stage = Stage::Done;
                self.error = Some(e);
            },
            BatchPolicy::SkipFailed => self.finish_item(),
        }
    }

    /// Takes the service's reply to the request of
    /// [`Resolution::next_request`] and moves on. A finished resolution
    /// ignores it.
    pub fn feed(&mut self, reply: FetchReply)
        requires
            old(self).wf(),
        ensures
            final(self).wf(),
            final(self)@ == step(old(self)@, reply@),
    {
        match self.stage {
            Stage::Done => {},
            Stage::Playlist => match reply {
                FetchReply::Playlist(es) => {
                    if es.len() == 0 {
                        self.stage = Stage::Done;
                        self.error = Some(ResolveError::EmptyPlaylist);
                    } else {
                        self.tracks = entry_tracks(&es, self.limit);
                        self.stage = Stage::Done;
                    }
                },
                FetchReply::NotFound => {
                    self.stage = Stage::Done;
                    self.error = Some(ResolveError::NotFound);
                },
                _ => {
                    self.stage = Stage::Done;
                    self.error = Some(ResolveError::ResolutionFailed);
                },
            },
            Stage::Items => {
                let searching = self.found.is_none() && match &self.items[self.next] {
                    Lookup::Search(_) => true,
                    Lookup::Link(_) => false,
                };
                if searching {
                    match reply {
                        FetchReply::SearchHit(l) => {
                            self.found = Some(l);
                        },
                        FetchReply::NotFound => self.fail_item(ResolveError::NotFound),
                        _ => self.fail_item(ResolveError::ResolutionFailed),
                    }
                } else {
                    let (origin, link) = match &self.items[self.next] {
                        Lookup::Link(u) => (Query::VideoLink(u.clone()), u.clone()),
                        Lookup::Search(k) => (Query::Keywords(k.clone()), k.clone()),
                    };
                    let link = match &self.found {
                        Some(l) => l.clone(),
                        None => link,
                    };
                    match reply {
                        FetchReply::Video(m) => {
                            let mut m = m;
                            if m.source_url.is_none() {
                                m.source_url = Some(link);
                            }
                            let t = ResolvedTrack::new(origin).with_metadata(m);
                            let ghost before = self.tracks@;
                            self.tracks.push(t);
                            assert(track_views(self.tracks@) =~= track_views(before).push(t@));
                            self.finish_item();
                        },
                        FetchReply::NotFound => self.fail_item(ResolveError::NotFound),
                        _ => self.fail_item(ResolveError::ResolutionFailed),
                    }
                }
            },
        }
    }

    /// Whether the resolution is finished.
    pub fn is_done(&self) -> (r: bool)
        ensures
            r == (self@.stage == Stage::Done),
    {
        self.stage == Stage::Done
    }

    /// The tracks, or the error, of a finished resolution. Success always
    /// carries at least one track.
    pub fn finish(self) -> (r: Result<Vec<ResolvedTrack>, ResolveError>)
        requires
            self.wf(),
            self@.stage == Stage::Done,
        ensures
            match self@.error {
                Some(e) => r == Err::<Vec<ResolvedTrack>, ResolveError>(e),
                None => r is Ok && track_views(r->Ok_0@) == self@.tracks,
            },
            r is Ok ==> r->Ok_0@.len() > 0,
    {
        match self.error {
            Some(e) => Err(e),
            None => Ok(self.tracks),
        }
    }
}

} // verus!
