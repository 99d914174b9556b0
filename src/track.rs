//! Tracks, their metadata and the queries they come from.
use vstd::prelude::*;
use vstd::string::*;

use crate::UNKNOWN_TITLE;

verus! {

/// Descriptive fields of a track, as far as the fetch service reported them.
pub struct TrackMetadata {
    pub title: Option<String>,
    pub track: Option<String>,
    pub artist: Option<String>,
    pub source_url: Option<String>,
    pub duration_secs: Option<u64>,
}

/// What a user asked for.
pub enum Query {
    VideoLink(String),
    Keywords(String),
    PlaylistLink(String),
    KeywordList(Vec<String>),
    PrebuiltSource(TrackMetadata),
    MappedTracks(Vec<TrackMetadata>),
}

/// Reference to the media source of a track; `opened` once playback begins.
pub struct SourceHandle {
    pub url: String,
    pub opened: bool,
}

/// One playable item: its query, its metadata once resolved, its source
/// reference and the user who asked for it.
pub struct ResolvedTrack {
    pub query: Query,
    pub metadata: Option<TrackMetadata>,
    pub video: Option<SourceHandle>,
    pub user_id: Option<u64>,
}

/// Abstract value of [`TrackMetadata`].
pub struct MetadataView {
    pub title: Option<Seq<char>>,
    pub track: Option<Seq<char>>,
    pub artist: Option<Seq<char>>,
    pub source_url: Option<Seq<char>>,
    pub duration_secs: Option<u64>,
}

/// Abstract value of [`Query`].
pub enum QueryView {
    VideoLink(Seq<char>),
    Keywords(Seq<char>),
    PlaylistLink(Seq<char>),
    KeywordList(Seq<Seq<char>>),
    PrebuiltSource(MetadataView),
    MappedTracks(Seq<MetadataView>),
}

/// Abstract value of [`SourceHandle`].
pub struct SourceView {
    pub url: Seq<char>,
    pub opened: bool,
}

/// Abstract value of [`ResolvedTrack`].
pub struct TrackView {
    pub query: QueryView,
    pub metadata: Option<MetadataView>,
    pub video: Option<SourceView>,
    pub user_id: Option<u64>,
}

/// View of an optional string.
pub open spec fn opt_text(s: Option<String>) -> Option<Seq<char>> {
    match s {
        Some(x) => Some(x@),
        None => None,
    }
}

/// Views of a sequence of strings.
pub open spec fn texts(v: Seq<String>) -> Seq<Seq<char>> {
    v.map_values(|s: String| s@)
}

/// Views of a sequence of metadata.
pub open spec fn metadata_views(v: Seq<TrackMetadata>) -> Seq<MetadataView> {
    v.map_values(|m: TrackMetadata| m@)
}

/// View of an optional track.
pub open spec fn opt_view(t: Option<ResolvedTrack>) -> Option<TrackView> {
    match t {
        Some(x) => Some(x@),
        None => None,
    }
}

/// Views of a sequence of tracks.
pub open spec fn track_views(v: Seq<ResolvedTrack>) -> Seq<TrackView> {
    v.map_values(|t: ResolvedTrack| t@)
}

impl View for TrackMetadata {
    type V = MetadataView;

    open spec fn view(&self) -> MetadataView {
        MetadataView {
            title: opt_text(self.title),
            track: opt_text(self.track),
            artist: opt_text(self.artist),
            source_url: opt_text(self.source_url),
            duration_secs: self.duration_secs,
        }
    }
}

impl View for Query {
    type V = QueryView;

    open spec fn view(&self) -> QueryView {
        match self {
            Query::VideoLink(u) => QueryView::VideoLink(u@),
            Query::Keywords(k) => QueryView::Keywords(k@),
            Query::PlaylistLink(u) => QueryView::PlaylistLink(u@),
            Query::KeywordList(ks) => QueryView::KeywordList(texts(ks@)),
            Query::PrebuiltSource(m) => QueryView::PrebuiltSource(m@),
            Query::MappedTracks(ms) => QueryView::MappedTracks(metadata_views(ms@)),
        }
    }
}

impl View for SourceHandle {
    type V = SourceView;

    open spec fn view(&self) -> SourceView {
        SourceView { url: self.url@, opened: self.opened }
    }
}

impl View for ResolvedTrack {
    type V = TrackView;

    open spec fn view(&self) -> TrackView {
        TrackView {
            query: self.query@,
            metadata: match self.metadata {
                Some(m) => Some(m@),
                None => None,
            },
            video: match self.video {
                Some(h) => Some(h@),
                None => None,
            },
            user_id: self.user_id,
        }
    }
}

/// A copy of an optional string.
pub fn clone_opt_string(s: &Option<String>) -> (r: Option<String>)
    ensures
        r == *s,
{
    match s {
        Some(x) => Some(x.clone()),
        None => None,
    }
}

fn clone_strings(v: &Vec<String>) -> (r: Vec<String>)
    ensures
        r@ == v@,
{
    let mut r: Vec<String> = Vec::new();
    let mut i: usize = 0;
    while i < v.len()
        invariant
            i <= v@.len(),
            r@ == v@.subrange(0, i as int),
        decreases v@.len() - i,
    {
        r.push(v[i].clone());
        i = i + 1;
    }
    assert(r@ =~= v@);
    r
}

impl Clone for TrackMetadata {
    fn clone(&self) -> (r: Self)
        ensures
            r == *self,
    {
        TrackMetadata {
            title: clone_opt_string(&self.title),
            track: clone_opt_string(&self.track),
            artist: clone_opt_string(&self.artist),
            source_url: clone_opt_string(&self.source_url),
            duration_secs: self.duration_secs,
        }
    }
}

fn clone_metadata_list(v: &Vec<TrackMetadata>) -> (r: Vec<TrackMetadata>)
    ensures
        r@ == v@,
{
    let mut r: Vec<TrackMetadata> = Vec::new();
    let mut i: usize = 0;
    while i < v.len()
        invariant
            i <= v@.len(),
            r@ == v@.subrange(0, i as int),
        decreases v@.len() - i,
    {
        r.push(v[i].clone());
        i = i + 1;
    }
    assert(r@ =~= v@);
    r
}

impl Clone for Query {
    fn clone(&self) -> (r: Self)
        ensures
            r@ == self@,
    {
        match self {
            Query::VideoLink(u) => Query::VideoLink(u.clone()),
            Query::Keywords(k) => Query::Keywords(k.clone()),
            Query::PlaylistLink(u) => Query::PlaylistLink(u.clone()),
            Query::KeywordList(ks) => Query::KeywordList(clone_strings(ks)),
            Query::PrebuiltSource(m) => Query::PrebuiltSource(m.clone()),
            Query::MappedTracks(ms) => Query::MappedTracks(clone_metadata_list(ms)),
        }
    }
}

impl Clone for SourceHandle {
    fn clone(&self) -> (r: Self)
        ensures
            r == *self,
    {
        SourceHandle { url: self.url.clone(), opened: self.opened }
    }
}

impl Clone for ResolvedTrack {
    fn clone(&self) -> (r: Self)
        ensures
            r@ == self@,
    {
        let metadata = match &self.metadata {
            Some(m) => Some(m.clone()),
            None => None,
        };
        let video = match &self.video {
            Some(h) => Some(h.clone()),
            None => None,
        };
        ResolvedTrack { query: self.query.clone(), metadata, video, user_id: self.user_id }
    }
}

/// The text of an optional string, empty when absent.
pub open spec fn text_or_empty(s: Option<Seq<char>>) -> Seq<char> {
    match s {
        Some(x) => x,
        None => Seq::empty(),
    }
}

/// Search text for a track known by its metadata: its track name, a space,
/// its artist.
pub open spec fn metadata_query(m: MetadataView) -> Seq<char> {
    text_or_empty(m.track) + seq![' '] + text_or_empty(m.artist)
}

/// The link a track plays from: the metadata's source link if there is one,
/// else the link the query named, else nothing.
pub open spec fn track_url(t: TrackView) -> Seq<char> {
    match t.metadata {
        Some(m) if m.source_url is Some => m.source_url->0,
        _ => match t.query {
            QueryView::VideoLink(u) => u,
            QueryView::PlaylistLink(u) => u,
            _ => Seq::empty(),
        },
    }
}

/// The title shown for a track.
pub open spec fn track_title(t: TrackView) -> Seq<char> {
    match t.metadata {
        Some(m) if m.title is Some => m.title->0,
        _ => UNKNOWN_TITLE@,
    }
}

/// One line describing a track: its title and, in parentheses, its link.
pub open spec fn track_line(t: TrackView) -> Seq<char> {
    track_title(t) + seq![' ', '('] + track_url(t) + seq![')']
}

/// The track as handed to the transport: its source reference opened on
/// the link it plays from.
pub open spec fn opened_view(t: TrackView) -> TrackView {
    TrackView { video: Some(SourceView { url: track_url(t), opened: true }), ..t }
}

/// A track has been resolved once its metadata is known.
pub open spec fn is_resolved(t: TrackView) -> bool {
    t.metadata is Some
}

fn text_of(s: &Option<String>) -> (r: String)
    ensures
        r@ == text_or_empty(opt_text(*s)),
{
    match s {
        Some(x) => x.clone(),
        None => String::new(),
    }
}

impl TrackMetadata {
    /// Metadata that knows nothing.
    pub fn empty() -> (r: Self)
        ensures
            r.title is None && r.track is None && r.artist is None,
            r.source_url is None && r.duration_secs is None,
    {
        TrackMetadata { title: None, track: None, artist: None, source_url: None, duration_secs: None }
    }

    /// The text searched for to find this track: track name, then artist.
    pub fn build_query(&self) -> (r: String)
        ensures
            r@ == metadata_query(self@),
    {
        let mut r = text_of(&self.track);
        r.append(" ");
        let artist = text_of(&self.artist);
        r.append(artist.as_str());
        proof {
            reveal_strlit(" ");
        }
        r
    }
}

impl ResolvedTrack {
    /// An unresolved track for `query`. A direct link gets a deferred source
    /// reference at once; nothing is opened.
    pub fn new(query: Query) -> (r: Self)
        ensures
            r.query == query,
            r.metadata is None,
            r.user_id is None,
            r.video == (match query {
                Query::VideoLink(u) => Some(SourceHandle { url: u, opened: false }),
                _ => None,
            }),
    {
        let video = match &query {
            Query::VideoLink(u) => Some(SourceHandle { url: u.clone(), opened: false }),
            _ => None,
        };
        ResolvedTrack { query, metadata: None, video, user_id: None }
    }

    /// The same track, marked as asked for by `user`.
    pub fn with_user_id(self, user: u64) -> (r: Self)
        ensures
            r == (ResolvedTrack { user_id: Some(user), ..self }),
    {
        ResolvedTrack { user_id: Some(user), ..self }
    }

    /// The same track with `metadata` attached.
    pub fn with_metadata(self, metadata: TrackMetadata) -> (r: Self)
        ensures
            r == (ResolvedTrack { metadata: Some(metadata), ..self }),
    {
        ResolvedTrack { metadata: Some(metadata), ..self }
    }

    pub fn is_resolved(&self) -> (r: bool)
        ensures
            r == is_resolved(self@),
    {
        self.metadata.is_some()
    }

    /// The link this track plays from.
    pub fn get_url(&self) -> (r: String)
        ensures
            r@ == track_url(self@),
    {
        if let Some(m) = &self.metadata {
            if let Some(u) = &m.source_url {
                return u.clone();
            }
        }
        match &self.query {
            Query::VideoLink(u) => u.clone(),
            Query::PlaylistLink(u) => u.clone(),
            _ => String::new(),
        }
    }

    /// The title of this track, or a placeholder when none is known.
    pub fn get_title(&self) -> (r: String)
        ensures
            r@ == track_title(self@),
    {
        if let Some(m) = &self.metadata {
            if let Some(t) = &m.title {
                return t.clone();
            }
        }
        String::from_str(UNKNOWN_TITLE)
    }

    /// A one-line description: the title, then the link in parentheses.
    pub fn describe(&self) -> (r: String)
        ensures
            r@ == track_line(self@),
    {
        let mut r = self.get_title();
        r.append(" (");
        let url = self.get_url();
        r.append(url.as_str());
        r.append(")");
        proof {
            reveal_strlit(" (");
            reveal_strlit(")");
        }
        r
    }

    /// The same track with its source reference opened, as done right before
    /// it is handed to the transport.
    pub fn open_source(self) -> (r: Self)
        ensures
            r@ == opened_view(self@),
    {
        let url = self.get_url();
        ResolvedTrack { video: Some(SourceHandle { url, opened: true }), ..self }
    }
}

} // verus!
