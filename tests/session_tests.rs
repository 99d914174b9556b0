use cracktunes::session::{Announcement, GuildSession, PlaybackError, SessionState};
use cracktunes::track::{Query, ResolvedTrack, TrackMetadata};

fn resolved(name: &str) -> ResolvedTrack {
    let url = format!("https://www.youtube.com/watch?v={}", name);
    ResolvedTrack::new(Query::VideoLink(url.clone())).with_metadata(TrackMetadata {
        title: Some(name.to_string()),
        track: None,
        artist: None,
        source_url: Some(url),
        duration_secs: None,
    })
}

fn played_title(r: &cracktunes::session::Reaction) -> String {
    r.play.as_ref().unwrap().get_title()
}

#[test]
fn scenario_three_tracks_play_through() {
    let mut s = GuildSession::new();
    s.join(0);
    assert_eq!(s.state, SessionState::ConnectedIdle);

    let r = s.enqueue(resolved("A"), 0).unwrap();
    assert_eq!(played_title(&r), "A");
    assert!(r.play.as_ref().unwrap().video.as_ref().unwrap().opened);
    assert_eq!(r.announcement, Some(Announcement::NowPlaying));
    assert_eq!(s.state, SessionState::ConnectedPlaying);

    let r = s.enqueue(resolved("B"), 0).unwrap();
    assert!(r.play.is_none() && r.announcement.is_none());
    let r = s.enqueue(resolved("C"), 0).unwrap();
    assert!(r.play.is_none() && r.announcement.is_none());
    assert_eq!(s.queue.len(), 2);
    assert_eq!(s.queue.get(0).unwrap().get_title(), "B");

    let r = s.on_track_end(1);
    assert_eq!(played_title(&r), "B");
    assert_eq!(s.queue.len(), 1);
    assert_eq!(s.state, SessionState::ConnectedPlaying);

    let r = s.on_track_end(2);
    assert_eq!(played_title(&r), "C");
    assert_eq!(s.queue.len(), 0);

    let r = s.on_track_end(3);
    assert!(r.play.is_none());
    assert_eq!(r.announcement, Some(Announcement::QueueFinished));
    assert_eq!(s.state, SessionState::ConnectedIdle);

    let r = s.on_track_end(4);
    assert!(r.announcement.is_none());
    assert_eq!(s.state, SessionState::ConnectedIdle);
}

#[test]
fn scenario_idle_timeout_disconnects_once() {
    let mut s = GuildSession::new();
    s.join(0);
    s.idle.set_timeout(5);
    for tick in 1..5 {
        let r = s.on_tick(tick);
        assert!(!r.disconnect && !r.cancel_timer && r.announcement.is_none());
        assert_eq!(s.state, SessionState::ConnectedIdle);
    }
    let r = s.on_tick(5);
    assert!(r.disconnect);
    assert!(r.cancel_timer);
    assert_eq!(r.announcement, Some(Announcement::IdleDisconnect));
    assert_eq!(s.state, SessionState::Disconnected);

    let r = s.on_tick(6);
    assert!(!r.disconnect && !r.cancel_timer && r.announcement.is_none() && r.play.is_none());
    assert_eq!(s.state, SessionState::Disconnected);
}

#[test]
fn idle_timeout_zero_never_evicts() {
    let mut s = GuildSession::new();
    s.join(0);
    s.idle.set_timeout(0);
    let r = s.on_tick(1000);
    assert!(!r.disconnect);
    assert_eq!(s.state, SessionState::ConnectedIdle);
}

#[test]
fn playing_session_is_not_evicted_and_activity_is_bumped() {
    let mut s = GuildSession::new();
    s.join(0);
    s.enqueue(resolved("A"), 3).unwrap();
    assert_eq!(s.idle.last_activity, 3);
    let r = s.on_tick(100);
    assert!(!r.disconnect);
    assert_eq!(s.state, SessionState::ConnectedPlaying);
    s.on_track_end(7);
    assert_eq!(s.state, SessionState::ConnectedIdle);
    assert_eq!(s.idle.last_activity, 3);
    assert!(!s.on_tick(7).disconnect);
    assert!(s.on_tick(8).disconnect);
}

#[test]
fn disconnected_session_refuses_tracks() {
    let mut s = GuildSession::new();
    assert!(matches!(s.enqueue(resolved("A"), 0), Err(PlaybackError::TransportUnavailable)));
    assert_eq!(s.queue.len(), 0);
    assert!(matches!(s.leave(), Err(PlaybackError::TransportUnavailable)));
    assert!(matches!(s.skip(0), Err(PlaybackError::TransportUnavailable)));
}

#[test]
fn track_error_stops_reports_and_skips() {
    let mut s = GuildSession::new();
    s.join(0);
    s.enqueue(resolved("A"), 0).unwrap();
    s.enqueue(resolved("B"), 0).unwrap();
    let r = s.on_track_error(1);
    assert!(r.stop_current);
    assert!(r.report_error);
    assert_eq!(played_title(&r), "B");
    let r = s.on_track_error(2);
    assert!(r.stop_current && r.report_error);
    assert!(r.play.is_none());
    assert_eq!(r.announcement, Some(Announcement::QueueFinished));
    assert_eq!(s.state, SessionState::ConnectedIdle);
}

#[test]
fn unresolved_head_is_handed_out_to_resolve() {
    let mut s = GuildSession::new();
    s.join(0);
    s.enqueue(resolved("A"), 0).unwrap();
    s.enqueue(ResolvedTrack::new(Query::VideoLink("https://x/raw".to_string())), 0).unwrap();
    s.enqueue(resolved("C"), 0).unwrap();

    let r = s.on_track_end(1);
    assert!(r.play.is_none());
    assert!(r.announcement.is_none());
    assert_eq!(r.resolve.as_ref().unwrap().get_url(), "https://x/raw");
    assert_eq!(s.queue.len(), 1);
    assert_eq!(s.queue.get(0).unwrap().get_title(), "C");
    assert_eq!(s.state, SessionState::ConnectedPlaying);
    assert_eq!(s.idle.last_activity, 0);

    let r = s.on_resolved(
        TrackMetadata {
            title: Some("Raw".to_string()),
            track: None,
            artist: None,
            source_url: None,
            duration_secs: None,
        },
        2,
    );
    assert_eq!(played_title(&r), "Raw");
    assert_eq!(r.play.as_ref().unwrap().get_url(), "https://x/raw");
    assert_eq!(r.announcement, Some(Announcement::NowPlaying));
    assert_eq!(s.queue.len(), 1);
    assert_eq!(s.idle.last_activity, 2);

    let again = s.on_resolved(TrackMetadata::empty(), 3);
    assert!(again.play.is_none() && again.announcement.is_none());
}

#[test]
fn unresolved_track_into_idle_session_is_not_dropped() {
    let mut s = GuildSession::new();
    s.join(0);
    let r = s.enqueue(ResolvedTrack::new(Query::VideoLink("https://x/bare".to_string())), 0).unwrap();
    assert!(r.play.is_none());
    assert_ne!(r.announcement, Some(Announcement::QueueFinished));
    assert_eq!(r.resolve.unwrap().get_url(), "https://x/bare");
    assert_eq!(s.state, SessionState::ConnectedPlaying);
}

#[test]
fn failed_resolution_skips_one_track() {
    let mut s = GuildSession::new();
    s.join(0);
    s.enqueue(ResolvedTrack::new(Query::VideoLink("https://x/bad".to_string())), 0).unwrap();
    s.enqueue(resolved("B"), 0).unwrap();
    s.enqueue(resolved("C"), 0).unwrap();
    let r = s.on_track_error(1);
    assert!(r.report_error);
    assert_eq!(played_title(&r), "B");
    assert_eq!(s.queue.len(), 1);
}

#[test]
fn queued_tracks_are_recorded_for_the_loop() {
    let mut s = GuildSession::new();
    s.queue_track(resolved("A"));
    s.queue_tracks(vec![resolved("B")]);
    assert_eq!(s.loop_backup.len(), 2);
    assert_eq!(s.queue.len(), 2);
    assert_eq!(s.state, SessionState::Disconnected);
    s.join(0);
    s.set_looping(true);
    let r = s.skip(0).unwrap();
    assert_eq!(played_title(&r), "A");
    s.queue.shuffle();
    s.queue.clear();
    assert_eq!(s.loop_backup.len(), 2);
    let r = s.on_track_end(1);
    assert_eq!(r.announcement, Some(Announcement::LoopRestarted));
    assert_eq!(played_title(&r), "A");
    assert_eq!(s.queue.get(0).unwrap().get_title(), "B");
}

#[test]
fn looping_restarts_from_backup() {
    let mut s = GuildSession::new();
    s.join(0);
    s.set_looping(true);
    s.enqueue(resolved("A"), 0).unwrap();
    s.enqueue(resolved("B"), 0).unwrap();
    assert_eq!(played_title(&s.on_track_end(1)), "B");
    let r = s.on_track_end(2);
    assert_eq!(r.announcement, Some(Announcement::LoopRestarted));
    assert_eq!(played_title(&r), "A");
    assert_eq!(s.queue.len(), 1);
    assert_eq!(s.queue.get(0).unwrap().get_title(), "B");
}

#[test]
fn skip_and_leave() {
    let mut s = GuildSession::new();
    s.join(0);
    s.enqueue(resolved("A"), 0).unwrap();
    s.enqueue(resolved("B"), 0).unwrap();
    let r = s.skip(1).unwrap();
    assert!(r.stop_current);
    assert_eq!(played_title(&r), "B");
    let r = s.leave().unwrap();
    assert!(r.disconnect && r.cancel_timer && r.stop_current);
    assert_eq!(s.state, SessionState::Disconnected);
    assert_eq!(s.queue.len(), 0);
    assert!(s.queue.now_playing().is_none());
}

#[test]
fn join_resets_idle_count() {
    let mut s = GuildSession::new();
    s.join(10);
    assert_eq!(s.idle.last_activity, 10);
    assert!(!s.on_tick(14).disconnect);
    assert!(s.on_tick(15).disconnect);
}
