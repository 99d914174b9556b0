use std::collections::VecDeque;

use cracktunes::queue::CrackTrackQueue;
use cracktunes::track::{Query, ResolvedTrack};
use cracktunes::EMPTY_QUEUE;

fn create_test_track(id: &str) -> ResolvedTrack {
    ResolvedTrack::new(Query::VideoLink(format!(
        "https://www.youtube.com/watch?v={}",
        id
    )))
    .with_user_id(1)
}

#[test]
fn test_queue_empty() {
    let mut queue = CrackTrackQueue::new();
    assert!(queue.is_empty());
    assert_eq!(queue.len(), 0);
    assert!(queue.dequeue().is_none());
}

#[test]
fn test_queue_enqueue_dequeue() {
    let mut queue = CrackTrackQueue::new();

    let track1 = create_test_track("1");
    let track2 = create_test_track("2");

    queue.enqueue(track1.clone());
    assert_eq!(queue.len(), 1);
    assert!(!queue.is_empty());

    queue.enqueue(track2.clone());
    assert_eq!(queue.len(), 2);

    let dequeued1 = queue.dequeue().unwrap();
    assert_eq!(dequeued1.get_url(), track1.get_url());
    assert_eq!(queue.len(), 1);

    let dequeued2 = queue.dequeue().unwrap();
    assert_eq!(dequeued2.get_url(), track2.get_url());
    assert_eq!(queue.len(), 0);
    assert!(queue.is_empty());
}

#[test]
fn test_queue_clear() {
    let mut queue = CrackTrackQueue::new();

    queue.enqueue(create_test_track("1"));
    queue.enqueue(create_test_track("2"));
    queue.enqueue(create_test_track("3"));

    assert_eq!(queue.len(), 3);

    queue.clear();
    assert_eq!(queue.len(), 0);
    assert!(queue.is_empty());
}

#[test]
fn test_queue_get_remove() {
    let mut queue = CrackTrackQueue::new();

    let track1 = create_test_track("1");
    let track2 = create_test_track("2");
    let track3 = create_test_track("3");

    queue.enqueue(track1.clone());
    queue.enqueue(track2.clone());
    queue.enqueue(track3.clone());

    let get_track2 = queue.get(1).unwrap();
    assert_eq!(get_track2.get_url(), track2.get_url());
    assert_eq!(queue.len(), 3);

    let removed_track2 = queue.remove(1).unwrap();
    assert_eq!(removed_track2.get_url(), track2.get_url());
    assert_eq!(queue.len(), 2);

    let next_track = queue.get(1).unwrap();
    assert_eq!(next_track.get_url(), track3.get_url());
}

#[test]
fn test_queue_push_pop_front_back() {
    let mut queue = CrackTrackQueue::new();

    let track1 = create_test_track("1");
    let track2 = create_test_track("2");

    queue.push_back(track1.clone());
    queue.push_front(track2.clone());

    assert_eq!(queue.get(0).unwrap().get_url(), track2.get_url());
    assert_eq!(queue.get(1).unwrap().get_url(), track1.get_url());

    let back = queue.pop_back().unwrap();
    assert_eq!(back.get_url(), track1.get_url());
    assert_eq!(queue.len(), 1);

    let front = queue.pop_front().unwrap();
    assert_eq!(front.get_url(), track2.get_url());
    assert_eq!(queue.len(), 0);
}

#[test]
fn test_queue_insert() {
    let mut queue = CrackTrackQueue::new();

    queue.enqueue(create_test_track("1"));
    queue.enqueue(create_test_track("3"));

    let track2 = create_test_track("2");
    queue.insert(1, track2.clone());

    assert_eq!(queue.get(0).unwrap().get_url(), "https://www.youtube.com/watch?v=1");
    assert_eq!(queue.get(1).unwrap().get_url(), "https://www.youtube.com/watch?v=2");
    assert_eq!(queue.get(2).unwrap().get_url(), "https://www.youtube.com/watch?v=3");
}

#[test]
fn test_queue_append() {
    let mut queue = CrackTrackQueue::new();

    queue.enqueue(create_test_track("1"));
    queue.enqueue(create_test_track("2"));

    let tracks = vec![create_test_track("3"), create_test_track("4")];
    queue.append_vec(tracks);

    assert_eq!(queue.len(), 4);
    assert_eq!(queue.get(2).unwrap().get_url(), "https://www.youtube.com/watch?v=3");
    assert_eq!(queue.get(3).unwrap().get_url(), "https://www.youtube.com/watch?v=4");

    let mut other_queue = VecDeque::new();
    other_queue.push_back(create_test_track("5"));
    other_queue.push_back(create_test_track("6"));

    queue.append(&mut other_queue);

    assert_eq!(queue.len(), 6);
    assert_eq!(queue.get(4).unwrap().get_url(), "https://www.youtube.com/watch?v=5");
    assert_eq!(queue.get(5).unwrap().get_url(), "https://www.youtube.com/watch?v=6");
}

#[test]
fn test_queue_shuffle() {
    let mut queue = CrackTrackQueue::new();

    for i in 1..11 {
        queue.enqueue(create_test_track(&i.to_string()));
    }

    let queue_before = queue.get_queue();
    queue.shuffle();
    let shuffled_queue = queue.get_queue();

    assert_eq!(queue_before.len(), shuffled_queue.len());

    let mut different = false;
    for i in 0..queue_before.len() {
        if queue_before[i].get_url() != shuffled_queue[i].get_url() {
            different = true;
            break;
        }
    }

    assert!(different, "Shuffle should have changed the order");

    let mut all_present = true;
    for track in &queue_before {
        let url = track.get_url();
        let found = shuffled_queue.iter().any(|t| t.get_url() == url);
        if !found {
            all_present = false;
            break;
        }
    }

    assert!(all_present, "All tracks should still be present after shuffle");
}

#[test]
fn test_queue_display() {
    let mut queue = CrackTrackQueue::new();

    assert_eq!(queue.get_display(), EMPTY_QUEUE);

    queue.enqueue(create_test_track("1"));
    queue.enqueue(create_test_track("2"));

    // Display still empty until built
    assert_eq!(queue.get_display(), EMPTY_QUEUE);

    queue.build_display();

    assert_ne!(queue.get_display(), EMPTY_QUEUE);
    let display = queue.get_display();
    assert!(!display.is_empty());
    assert!(display.contains("youtube.com/watch?v=1"));
    assert!(display.contains("youtube.com/watch?v=2"));
}

#[test]
fn queue_display_exact_text() {
    let mut queue = CrackTrackQueue::new();
    queue.enqueue(create_test_track("1"));
    queue.enqueue(create_test_track("2"));
    queue.build_display();
    assert_eq!(
        queue.get_display(),
        "Nothing is currently playing.\n\n\
         Unknown title (https://www.youtube.com/watch?v=1)\n\
         Unknown title (https://www.youtube.com/watch?v=2)"
    );
}

#[test]
fn queue_display_omits_dequeued_tracks() {
    let mut queue = CrackTrackQueue::new();
    queue.enqueue(create_test_track("first"));
    queue.enqueue(create_test_track("second"));
    let playing = queue.dequeue().unwrap();
    queue.set_now_playing(Some(playing));
    queue.build_display();
    let display = queue.get_display();
    assert!(display.starts_with("Now Playing: Unknown title (https://www.youtube.com/watch?v=first)"));
    assert!(display.ends_with("\n\nUnknown title (https://www.youtube.com/watch?v=second)"));
    assert_eq!(display.matches("v=first").count(), 1);
}

#[test]
fn queue_display_is_stale_until_rebuilt() {
    let mut queue = CrackTrackQueue::new();
    queue.enqueue(create_test_track("1"));
    queue.build_display();
    let built = queue.get_display();
    queue.enqueue(create_test_track("2"));
    assert_eq!(queue.get_display(), built);
    assert!(!built.contains("v=2"));
}

#[test]
fn queue_out_of_range_index_is_absent() {
    let mut queue = CrackTrackQueue::new();
    queue.enqueue(create_test_track("1"));
    assert!(queue.get(1).is_none());
    assert!(queue.remove(5).is_none());
    assert_eq!(queue.len(), 1);
    assert!(!queue.insert(3, create_test_track("x")));
    assert_eq!(queue.len(), 1);
    assert!(queue.insert(1, create_test_track("2")));
    assert_eq!(queue.get(1).unwrap().get_url(), "https://www.youtube.com/watch?v=2");
}

#[test]
fn queue_fifo_order_of_many_tracks() {
    let mut queue = CrackTrackQueue::new();
    for i in 0..20 {
        queue.enqueue(create_test_track(&i.to_string()));
    }
    for i in 0..20 {
        let t = queue.dequeue().unwrap();
        assert_eq!(t.get_url(), format!("https://www.youtube.com/watch?v={}", i));
    }
    assert!(queue.dequeue().is_none());
}

#[test]
fn queue_shuffle_keeps_url_multiset() {
    let mut queue = CrackTrackQueue::new();
    for i in 0..8 {
        queue.enqueue(create_test_track(&(i % 3).to_string()));
    }
    let mut before: Vec<String> = queue.get_queue().iter().map(|t| t.get_url()).collect();
    queue.shuffle();
    let mut after: Vec<String> = queue.get_queue().iter().map(|t| t.get_url()).collect();
    before.sort();
    after.sort();
    assert_eq!(before, after);
}

#[test]
fn queue_shuffle_of_empty_and_single() {
    let mut queue = CrackTrackQueue::new();
    queue.shuffle();
    assert!(queue.is_empty());
    queue.enqueue(create_test_track("only"));
    queue.shuffle();
    assert_eq!(queue.get(0).unwrap().get_url(), "https://www.youtube.com/watch?v=only");
}

#[test]
fn queue_append_self_to_other_copies() {
    let mut queue = CrackTrackQueue::new();
    queue.enqueue(create_test_track("1"));
    queue.enqueue(create_test_track("2"));
    let mut other = VecDeque::new();
    other.push_back(create_test_track("0"));
    queue.append_self_to_other(&mut other);
    let urls: Vec<String> = other.iter().map(|t| t.get_url()).collect();
    assert_eq!(
        urls,
        vec![
            "https://www.youtube.com/watch?v=0",
            "https://www.youtube.com/watch?v=1",
            "https://www.youtube.com/watch?v=2"
        ]
    );
    assert_eq!(queue.len(), 2);
}

#[test]
fn queue_with_queue_and_clone_are_independent() {
    let mut deque = VecDeque::new();
    deque.push_back(create_test_track("1"));
    let mut queue = CrackTrackQueue::with_queue(deque);
    assert_eq!(queue.len(), 1);
    assert_eq!(queue.get_display(), EMPTY_QUEUE);
    let copy = queue.clone();
    queue.enqueue(create_test_track("2"));
    assert_eq!(queue.len(), 2);
    assert_eq!(copy.len(), 1);
}
