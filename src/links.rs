//! Telling a video link from a playlist link.
use vstd::prelude::*;
use vstd::string::*;

use crate::queue::contains_text;
use crate::resolver::ResolveError;
use crate::track::{texts, Query, QueryView};

verus! {

/// The parts of a parsed link that the classification reads.
pub struct LinkParts {
    /// The whole link, normalised by the parser.
    pub text: String,
    pub path: String,
    /// The keys of the query string, in order.
    pub query_keys: Vec<String>,
}

/// What the url crate makes of a link: its normalised text, its path and
/// the keys of its query string, or nothing if it does not parse.
pub uninterp spec fn parsed_link(s: Seq<char>) -> Option<(Seq<char>, Seq<char>, Seq<Seq<char>>)>;

/// Relies on url's `Url::parse`, and on `Url::as_str`, `Url::path` and
/// `Url::query_pairs` of the parsed link: the result depends on the text
/// alone.
#[verifier::external_body]
fn parse_link(s: &str) -> (r: Option<LinkParts>)
    ensures
        match r {
            Some(p) => parsed_link(s@) == Some((p.text@, p.path@, texts(p.query_keys@))),
            None => parsed_link(s@) is None,
        },
{
    url::Url::parse(s).ok().map(
        |u| LinkParts {
            text: u.as_str().to_string(),
            path: u.path().to_string(),
            query_keys: u.query_pairs().map(|(k, _)| k.into_owned()).collect(),
        },
    )
}

/// A link names a playlist when its path says so, or when it is a watch
/// link that carries a `list` key.
pub open spec fn is_playlist_link(path: Seq<char>, keys: Seq<Seq<char>>) -> bool {
    contains_text(path, "playlist"@) || (keys.contains("list"@) && contains_text(path, "watch"@))
}

/// The query a link stands for.
pub open spec fn link_query(text: Seq<char>, path: Seq<char>, keys: Seq<Seq<char>>) -> QueryView {
    if is_playlist_link(path, keys) {
        QueryView::PlaylistLink(text)
    } else {
        QueryView::VideoLink(text)
    }
}

/// Whether `t` occurs in `s`.
pub fn has_text(s: &str, t: &str) -> (r: bool)
    ensures
        r == contains_text(s@, t@),
{
    let n = s.unicode_len();
    let m = t.unicode_len();
    if m > n {
        return false;
    }
    let mut k: usize = 0;
    while k <= n - m
        invariant
            n == s@.len(),
            m == t@.len(),
            m <= n,
            k <= n - m + 1,
            forall|k2: int| 0 <= k2 < k ==> #[trigger] s@.subrange(k2, k2 + m) != t@,
        decreases n - m + 1 - k,
    {
        let mut j: usize = 0;
        while j < m && s.get_char(k + j) == t.get_char(j)
            invariant
                n == s@.len(),
                m == t@.len(),
                k + m <= n,
                j <= m,
                forall|j2: int| 0 <= j2 < j ==> s@[k + j2] == t@[j2],
            decreases m - j,
        {
            j = j + 1;
        }
        if j == m {
            assert(s@.subrange(k as int, k + m) =~= t@);
            return true;
        }
        assert(s@.subrange(k as int, k + m)[j as int] != t@[j as int]);
        k = k + 1;
    }
    false
}

fn has_key(keys: &Vec<String>, key: &str) -> (r: bool)
    ensures
        r == texts(keys@).contains(key@),
{
    let mut i: usize = 0;
    while i < keys.len()
        invariant
            i <= keys@.len(),
            forall|j: int| 0 <= j < i ==> keys@[j]@ != key@,
        decreases keys@.len() - i,
    {
        if keys[i].as_str().unicode_len() == key.unicode_len() && has_text(keys[i].as_str(), key) {
            assert(keys@[i as int]@.subrange(0, 0 + key@.len() as int) =~= keys@[i as int]@);
            assert(texts(keys@)[i as int] == key@);
            return true;
        }
        proof {
            if keys@[i as int]@ == key@ {
                assert(key@.subrange(0, 0 + key@.len() as int) =~= key@);
            }
        }
        i = i + 1;
    }
    false
}

/// Classifies a parsed link as a playlist or a single video.
pub fn yt_url_type(link: &LinkParts) -> (r: Query)
    ensures
        r@ == link_query(link.text@, link.path@, texts(link.query_keys@)),
{
    let playlist = has_text(link.path.as_str(), "playlist") || (has_key(&link.query_keys, "list")
        && has_text(link.path.as_str(), "watch"));
    if playlist {
        Query::PlaylistLink(link.text.clone())
    } else {
        Query::VideoLink(link.text.clone())
    }
}

/// The query a link stands for; a text that is no link is not a query the
/// resolver handles.
pub fn classify_link(s: &str) -> (r: Result<Query, ResolveError>)
    ensures
        match parsed_link(s@) {
            Some((text, path, keys)) => r is Ok && r->Ok_0@ == link_query(text, path, keys),
            None => r == Err::<Query, ResolveError>(ResolveError::UnsupportedQuery),
        },
{
    match parse_link(s) {
        Some(parts) => Ok(yt_url_type(&parts)),
        None => Err(ResolveError::UnsupportedQuery),
    }
}

} // verus!
