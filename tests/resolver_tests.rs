use cracktunes::resolver::{
    BatchPolicy, FetchReply, FetchRequest, PlaylistEntry, ResolveError, Resolution,
};
use cracktunes::track::{Query, ResolvedTrack, TrackMetadata};

fn meta(title: &str, url: Option<&str>) -> TrackMetadata {
    TrackMetadata {
        title: Some(title.to_string()),
        track: None,
        artist: None,
        source_url: url.map(|u| u.to_string()),
        duration_secs: Some(60),
    }
}

fn entry(i: usize) -> PlaylistEntry {
    PlaylistEntry {
        url: format!("https://www.youtube.com/watch?v={}", i),
        title: Some(format!("Track {}", i)),
        duration_secs: None,
    }
}

fn request_text(r: &FetchRequest) -> String {
    match r {
        FetchRequest::Video(u) => format!("video {}", u),
        FetchRequest::SearchBest(k) => format!("search {}", k),
        FetchRequest::Playlist(u, n) => format!("playlist {} {}", u, n),
    }
}

#[test]
fn scenario_empty_playlist_is_its_own_error() {
    let mut r = Resolution::start(
        Query::PlaylistLink("https://www.youtube.com/playlist?list=X".to_string()),
        BatchPolicy::AllOrNothing,
    );
    assert_eq!(
        request_text(&r.next_request().unwrap()),
        "playlist https://www.youtube.com/playlist?list=X 50"
    );
    r.feed(FetchReply::Playlist(Vec::new()));
    assert!(r.next_request().is_none());
    assert!(matches!(r.finish(), Err(ResolveError::EmptyPlaylist)));

    let mut failed = Resolution::start(
        Query::PlaylistLink("https://www.youtube.com/playlist?list=bad".to_string()),
        BatchPolicy::AllOrNothing,
    );
    failed.feed(FetchReply::Failed);
    assert!(matches!(failed.finish(), Err(ResolveError::ResolutionFailed)));
}

#[test]
fn playlist_is_capped_at_the_default_limit() {
    let mut r = Resolution::start(
        Query::PlaylistLink("https://www.youtube.com/playlist?list=X".to_string()),
        BatchPolicy::AllOrNothing,
    );
    r.feed(FetchReply::Playlist((0..60).map(entry).collect()));
    let tracks = r.finish().unwrap();
    assert_eq!(tracks.len(), 50);
    assert_eq!(tracks[0].get_url(), "https://www.youtube.com/watch?v=0");
    assert_eq!(tracks[49].get_title(), "Track 49");
}

#[test]
fn video_link_resolves_to_one_track() {
    let mut r = Resolution::start(
        Query::VideoLink("https://www.youtube.com/watch?v=X9ukSm5gmKk".to_string()),
        BatchPolicy::AllOrNothing,
    );
    assert_eq!(
        request_text(&r.next_request().unwrap()),
        "video https://www.youtube.com/watch?v=X9ukSm5gmKk"
    );
    r.feed(FetchReply::Video(meta("Molly Nilsson \"1995\"", None)));
    assert!(r.is_done());
    let tracks = r.finish().unwrap();
    assert_eq!(tracks.len(), 1);
    assert_eq!(tracks[0].get_title(), "Molly Nilsson \"1995\"");
    assert_eq!(tracks[0].get_url(), "https://www.youtube.com/watch?v=X9ukSm5gmKk");
}

#[test]
fn video_link_not_found() {
    let mut r = Resolution::start(Query::VideoLink("https://x/v".to_string()), BatchPolicy::AllOrNothing);
    r.feed(FetchReply::NotFound);
    assert!(matches!(r.finish(), Err(ResolveError::NotFound)));
}

#[test]
fn keywords_search_then_fetch() {
    let mut r = Resolution::start(Query::Keywords("molly nilsson".to_string()), BatchPolicy::AllOrNothing);
    assert_eq!(request_text(&r.next_request().unwrap()), "search molly nilsson");
    r.feed(FetchReply::SearchHit("https://x/hit".to_string()));
    assert_eq!(request_text(&r.next_request().unwrap()), "video https://x/hit");
    r.feed(FetchReply::Video(meta("Hit", Some("https://x/hit"))));
    let tracks = r.finish().unwrap();
    assert_eq!(tracks.len(), 1);
    assert!(matches!(&tracks[0].query, Query::Keywords(k) if k == "molly nilsson"));
    assert_eq!(tracks[0].get_url(), "https://x/hit");
}

#[test]
fn keywords_without_hit_is_not_found() {
    let mut r = Resolution::start(Query::Keywords("zzz".to_string()), BatchPolicy::AllOrNothing);
    r.feed(FetchReply::NotFound);
    assert!(matches!(r.finish(), Err(ResolveError::NotFound)));
}

#[test]
fn out_of_turn_reply_fails() {
    let mut r = Resolution::start(Query::Keywords("zzz".to_string()), BatchPolicy::AllOrNothing);
    r.feed(FetchReply::Video(meta("x", None)));
    assert!(matches!(r.finish(), Err(ResolveError::ResolutionFailed)));
}

fn run_list(policy: BatchPolicy, fail_second: bool) -> Result<Vec<ResolvedTrack>, ResolveError> {
    let mut r = Resolution::start(
        Query::KeywordList(vec!["one".to_string(), "two".to_string(), "three".to_string()]),
        policy,
    );
    let mut n = 0;
    while let Some(req) = r.next_request() {
        match req {
            FetchRequest::SearchBest(k) => {
                if fail_second && k == "two" {
                    r.feed(FetchReply::NotFound);
                } else {
                    r.feed(FetchReply::SearchHit(format!("https://x/{}", k)));
                }
            }
            FetchRequest::Video(u) => r.feed(FetchReply::Video(meta(&u, None))),
            FetchRequest::Playlist(_, _) => panic!(),
        }
        n += 1;
        assert!(n < 20);
    }
    r.finish()
}

#[test]
fn keyword_list_keeps_order() {
    let tracks = run_list(BatchPolicy::AllOrNothing, false).unwrap();
    let urls: Vec<String> = tracks.iter().map(|t| t.get_url()).collect();
    assert_eq!(urls, vec!["https://x/one", "https://x/two", "https://x/three"]);
}

#[test]
fn keyword_list_all_or_nothing_fails_whole_batch() {
    assert!(matches!(run_list(BatchPolicy::AllOrNothing, true), Err(ResolveError::NotFound)));
}

#[test]
fn keyword_list_skip_failed_keeps_the_rest() {
    let tracks = run_list(BatchPolicy::SkipFailed, true).unwrap();
    let urls: Vec<String> = tracks.iter().map(|t| t.get_url()).collect();
    assert_eq!(urls, vec!["https://x/one", "https://x/three"]);
}

#[test]
fn skip_failed_with_nothing_resolved_is_not_found() {
    let mut r = Resolution::start(Query::KeywordList(vec!["a".to_string()]), BatchPolicy::SkipFailed);
    r.feed(FetchReply::Failed);
    assert!(matches!(r.finish(), Err(ResolveError::NotFound)));
}

#[test]
fn empty_keyword_list_is_not_found() {
    let r = Resolution::start(Query::KeywordList(Vec::new()), BatchPolicy::AllOrNothing);
    assert!(r.next_request().is_none());
    assert!(matches!(r.finish(), Err(ResolveError::NotFound)));
    let m = Resolution::start(Query::MappedTracks(Vec::new()), BatchPolicy::SkipFailed);
    assert!(matches!(m.finish(), Err(ResolveError::NotFound)));
}

#[test]
fn mapped_tracks_search_by_track_and_artist() {
    let d = TrackMetadata {
        artist: Some("hello".to_string()),
        track: Some("world".to_string()),
        ..TrackMetadata::empty()
    };
    let r = Resolution::start(Query::MappedTracks(vec![d]), BatchPolicy::AllOrNothing);
    assert_eq!(request_text(&r.next_request().unwrap()), "search world hello");
}

#[test]
fn prebuilt_source_needs_no_request() {
    let r = Resolution::start(
        Query::PrebuiltSource(meta("Ready", Some("https://x/ready"))),
        BatchPolicy::AllOrNothing,
    );
    assert!(r.next_request().is_none());
    let tracks = r.finish().unwrap();
    assert_eq!(tracks.len(), 1);
    assert_eq!(tracks[0].get_url(), "https://x/ready");
    assert!(tracks[0].video.is_none());
}

#[test]
fn finished_resolution_ignores_replies() {
    let mut r = Resolution::start(Query::VideoLink("https://x/v".to_string()), BatchPolicy::AllOrNothing);
    r.feed(FetchReply::Video(meta("V", None)));
    r.feed(FetchReply::Failed);
    assert_eq!(r.finish().unwrap().len(), 1);
}

#[test]
fn playlist_with_caller_cap() {
    let mut r = Resolution::start_playlist("https://x/list".to_string(), 2, BatchPolicy::AllOrNothing);
    assert_eq!(request_text(&r.next_request().unwrap()), "playlist https://x/list 2");
    r.feed(FetchReply::Playlist((0..5).map(entry).collect()));
    assert_eq!(r.finish().unwrap().len(), 2);
    let zero = Resolution::start_playlist("https://x/list".to_string(), 0, BatchPolicy::AllOrNothing);
    assert!(zero.next_request().is_none());
    assert!(matches!(zero.finish(), Err(ResolveError::UnsupportedQuery)));
}
