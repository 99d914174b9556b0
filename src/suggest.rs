//! Preparing search-suggestion requests and cleaning their answers.
use vstd::prelude::*;
use vstd::string::*;

use crate::track::texts;

verus! {

/// `s` with every double quote taken out.
pub open spec fn without_quotes(s: Seq<char>) -> Seq<char>
    decreases s.len(),
{
    if s.len() == 0 {
        s
    } else if s.last() == '"' {
        without_quotes(s.drop_last())
    } else {
        without_quotes(s.drop_last()).push(s.last())
    }
}

/// Takes every double quote out of `s`.
pub fn strip_quotes(s: &str) -> (r: String)
    ensures
        r@ == without_quotes(s@),
{
    let n = s.unicode_len();
    let mut r = String::new();
    let mut i: usize = 0;
    assert(s@.take(0) =~= Seq::<char>::empty());
    while i < n
        invariant
            n == s@.len(),
            i <= n,
            r@ == without_quotes(s@.take(i as int)),
        decreases n - i,
    {
        let c = s.get_char(i);
        assert(s@.take(i + 1).drop_last() =~= s@.take(i as int));
        if c != '"' {
            let piece = s.substring_char(i, i + 1);
            r.append(piece);
            assert(piece@ =~= seq![c]);
        }
        i = i + 1;
    }
    assert(s@.take(n as int) =~= s@);
    r
}

/// The text to ask the suggestion service about, or `None` when nothing is
/// left once quotes are taken out: then no request is made and the answer is
/// an empty list.
pub fn suggestion_query(query: &str) -> (r: Option<String>)
    ensures
        without_quotes(query@).len() == 0 ==> r is None,
        without_quotes(query@).len() > 0 ==> r is Some && r->0@ == without_quotes(query@),
{
    let q = strip_quotes(query);
    if q.as_str().unicode_len() == 0 {
        None
    } else {
        Some(q)
    }
}

/// The service's suggestions, each with its double quotes taken out, in order.
pub fn clean_suggestions(found: Vec<String>) -> (r: Vec<String>)
    ensures
        texts(r@) == texts(found@).map_values(|s: Seq<char>| without_quotes(s)),
{
    let mut r: Vec<String> = Vec::new();
    let mut i: usize = 0;
    while i < found.len()
        invariant
            i <= found@.len(),
            r@.len() == i,
            forall|j: int| 0 <= j < i ==> #[trigger] r@[j]@ == without_quotes(found@[j]@),
        decreases found@.len() - i,
    {
        r.push(strip_quotes(found[i].as_str()));
        i = i + 1;
    }
    assert(texts(r@) =~= texts(found@).map_values(|s: Seq<char>| without_quotes(s)));
    r
}

} // verus!
