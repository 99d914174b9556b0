use cracktunes::queue::CrackTrackQueue;
use cracktunes::track::{Query, ResolvedTrack};

fn setup_test_queue() -> CrackTrackQueue {
    let mut queue = CrackTrackQueue::new();
    for id in ["hdA8uvHYrYE", "EkKYIg_qubA", "rENr1sxQUo8"] {
        let track = ResolvedTrack::new(Query::VideoLink(format!(
            "https://www.youtube.com/watch?v={}",
            id
        )))
        .with_user_id(1);
        queue.enqueue(track);
    }
    queue
}

#[test]
fn test_queue_concurrent_access() {
    let mut queue = setup_test_queue();

    for _ in 0..2 {
        let _ = queue.dequeue();
    }
    for i in 10..15 {
        let track = ResolvedTrack::new(Query::VideoLink(format!(
            "https://youtube.com/watch?v={}",
            i
        )))
        .with_user_id(1);
        queue.enqueue(track);
    }
    let mut lengths = Vec::new();
    for _ in 0..6 {
        lengths.push(queue.len());
    }

    assert_eq!(queue.len(), 6);
}

#[test]
fn test_shuffle_keeps_all_tracks() {
    let mut queue = CrackTrackQueue::new();

    for i in 1..21 {
        let track = ResolvedTrack::new(Query::VideoLink(format!(
            "https://youtube.com/watch?v={}",
            i
        )))
        .with_user_id(1);
        queue.push_back(track);
    }

    let tracks_before = queue.get_queue();
    let urls_before: Vec<String> = tracks_before.iter().map(|t| t.get_url()).collect();

    for _ in 0..5 {
        queue.shuffle();
    }

    let tracks_after = queue.get_queue();
    let urls_after: Vec<String> = tracks_after.iter().map(|t| t.get_url()).collect();

    assert_eq!(tracks_before.len(), tracks_after.len());

    for url in &urls_before {
        assert!(urls_after.contains(url), "Track {} was lost during shuffle", url);
    }
}

#[test]
fn test_multiple_queue_instances() {
    let guild1: u64 = 1;
    let guild2: u64 = 2;

    let queues = dashmap::DashMap::new();

    queues.insert(guild1, CrackTrackQueue::new());
    queues.insert(guild2, CrackTrackQueue::new());

    let track1 = ResolvedTrack::new(Query::VideoLink(
        "https://www.youtube.com/watch?v=guild1".to_string(),
    ))
    .with_user_id(1);
    queues.get_mut(&guild1).unwrap().enqueue(track1);

    let track2 = ResolvedTrack::new(Query::VideoLink(
        "https://www.youtube.com/watch?v=guild2".to_string(),
    ))
    .with_user_id(2);
    queues.get_mut(&guild2).unwrap().enqueue(track2);

    assert_eq!(queues.get(&guild1).unwrap().len(), 1);
    assert_eq!(queues.get(&guild2).unwrap().len(), 1);

    let track1_url = queues.get(&guild1).unwrap().get(0).unwrap().get_url();
    let track2_url = queues.get(&guild2).unwrap().get(0).unwrap().get_url();

    assert_eq!(track1_url, "https://www.youtube.com/watch?v=guild1");
    assert_eq!(track2_url, "https://www.youtube.com/watch?v=guild2");

    queues.get_mut(&guild1).unwrap().clear();
    assert_eq!(queues.get(&guild1).unwrap().len(), 0);
    assert_eq!(queues.get(&guild2).unwrap().len(), 1);
}

#[test]
fn test_queue_stress_test() {
    let mut queue = CrackTrackQueue::new();

    for i in 1..1001 {
        let track = ResolvedTrack::new(Query::VideoLink(format!(
            "https://youtube.com/watch?v={}",
            i
        )))
        .with_user_id(1);
        queue.push_back(track);
    }

    assert_eq!(queue.len(), 1000);

    for i in (0..1000).step_by(100) {
        let _ = queue.get(i);
    }

    while !queue.is_empty() {
        let _ = queue.dequeue();
    }

    assert_eq!(queue.len(), 0);
}
