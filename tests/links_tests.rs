use cracktunes::links::{classify_link, has_text, yt_url_type, LinkParts};
use cracktunes::resolver::ResolveError;
use cracktunes::track::Query;

#[test]
fn test_yt_url_type() {
    let urls = [
        "https://www.youtube.com/watch?v=X9ukSm5gmKk",
        "https://www.youtube.com/watch?v=X9ukSm5gmKk&list=PLc1HPXyC5ookjUsyLkdfek0WUIGuGXRcP",
        "https://www.youtube.com/playlist?list=PLc1HPXyC5ookjUsyLkdfek0WUIGuGXRcP",
    ];
    let want_playlist = vec![false, true, true];

    for (url, want) in urls.iter().zip(want_playlist) {
        let res = classify_link(url).expect("Failed to parse URL");
        match res {
            Query::VideoLink(_) => assert!(!want),
            Query::PlaylistLink(_) => assert!(want),
            _ => panic!(),
        }
    }
}

#[test]
fn classify_link_keeps_the_link() {
    match classify_link("https://www.youtube.com/watch?v=abc").unwrap() {
        Query::VideoLink(u) => assert_eq!(u, "https://www.youtube.com/watch?v=abc"),
        _ => panic!(),
    }
}

#[test]
fn classify_link_rejects_text_that_is_no_link() {
    assert!(matches!(classify_link("not a link"), Err(ResolveError::UnsupportedQuery)));
}

#[test]
fn yt_url_type_on_parts() {
    let parts = LinkParts {
        text: "https://x/watch?list=1".to_string(),
        path: "/watch".to_string(),
        query_keys: vec!["list".to_string()],
    };
    assert!(matches!(yt_url_type(&parts), Query::PlaylistLink(_)));
    let list_elsewhere = LinkParts {
        text: "https://x/view?list=1".to_string(),
        path: "/view".to_string(),
        query_keys: vec!["list".to_string()],
    };
    assert!(matches!(yt_url_type(&list_elsewhere), Query::VideoLink(_)));
    let watch_only = LinkParts {
        text: "https://x/watch?v=1".to_string(),
        path: "/watch".to_string(),
        query_keys: vec!["v".to_string(), "lists".to_string()],
    };
    assert!(matches!(yt_url_type(&watch_only), Query::VideoLink(_)));
}

#[test]
fn has_text_cases() {
    assert!(has_text("/playlist", "playlist"));
    assert!(has_text("abc", ""));
    assert!(!has_text("ab", "abc"));
    assert!(has_text("aab", "ab"));
    assert!(!has_text("/watch", "playlist"));
}
