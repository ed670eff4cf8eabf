//! The search index documents and the exact-word query engine.

use vstd::prelude::*;
use crate::text::{chars_of, equal_at, is_whitespace_char, is_ws};

verus! {

/// `serde_json::Value`, carried unopened: the metadata a match hands back.
#[verifier::external_type_specification]
#[verifier::external_body]
pub struct ExJsonValue(serde_json::Value);

/// Relies on the derived `Clone` of `serde_json::Value`: the copy equals the value it was made from.
pub assume_specification[ <serde_json::Value as Clone>::clone ](v: &serde_json::Value) -> (r:
    serde_json::Value)
    ensures
        r == *v,
;

/// What `str::to_lowercase` returns for a string: a function of its characters alone.
pub uninterp spec fn lower_of(s: Seq<char>) -> Seq<char>;

/// Relies on `str::to_lowercase`: the lowercase mapping of each character, so
/// that the empty string stays empty.
#[verifier::external_body]
fn lowercase(s: &str) -> (r: String)
    ensures
        r@ == lower_of(s@),
        s@.len() == 0 ==> r@.len() == 0,
{
    s.to_lowercase()
}

/// One document of the search index: the post's identifier, the texts that a
/// query is matched against, and the metadata handed back on a match.
pub struct SearchPostData {
    pub id: String,
    pub fields: Vec<String>,
    pub meta: serde_json::Value,
}

/// The metadata recorded for a post in the search index.
#[derive(Debug, Clone, PartialEq, Eq)]
pub struct SearchPostMetaCompile {
    pub title: String,
    pub tags: Vec<String>,
    pub tldr: Option<String>,
    pub path: String,
}

/// A way of answering queries against a loaded index.
pub trait SearchEngine {
    fn search(&self, query: &str) -> Vec<serde_json::Value>;
}

/// `q` is one whole whitespace-delimited word of `field`: it is non-empty,
/// holds no whitespace, and stands in `field` between whitespace or the ends.
pub open spec fn has_word(field: Seq<char>, q: Seq<char>) -> bool {
    &&& q.len() > 0
    &&& forall|k: int| 0 <= k < q.len() ==> !is_ws(#[trigger] q[k])
    &&& exists|i: int| #[trigger] word_at(field, q, i)
}

pub open spec fn word_at(field: Seq<char>, q: Seq<char>, i: int) -> bool {
    &&& 0 <= i
    &&& i + q.len() <= field.len()
    &&& field.subrange(i, i + q.len()) == q
    &&& (i == 0 || is_ws(field[i - 1]))
    &&& (i + q.len() == field.len() || is_ws(field[i + q.len()]))
}

/// A document matches a query when some field, lowercased, has the
/// lowercased query as one of its words.
pub open spec fn post_matches(p: SearchPostData, q: Seq<char>) -> bool {
    exists|f: int| 0 <= f < p.fields.len() && has_word(lower_of(#[trigger] p.fields[f]@), lower_of(q))
}

/// The metadata of the matching documents, in index order.
pub open spec fn matching_metas(posts: Seq<SearchPostData>, q: Seq<char>) -> Seq<serde_json::Value>
    decreases posts.len(),
{
    if posts.len() == 0 {
        seq![]
    } else {
        let prev = matching_metas(posts.drop_last(), q);
        if post_matches(posts.last(), q) {
            prev.push(posts.last().meta)
        } else {
            prev
        }
    }
}

fn contains_word(f: &Vec<char>, q: &Vec<char>) -> (r: bool)
    ensures
        r == has_word(f@, q@),
{
    let m = q.len();
    let n = f.len();
    if m == 0 {
        return false;
    }
    let mut k: usize = 0;
    while k < m
        invariant
            m == q.len(),
            k <= m,
            forall|t: int| 0 <= t < k ==> !is_ws(#[trigger] q@[t]),
        decreases m - k,
    {
        if is_whitespace_char(q[k]) {
            return false;
        }
        k = k + 1;
    }
    if m > n {
        assert forall|i: int| !word_at(f@, q@, i) by {}
        return false;
    }
    let mut i: usize = 0;
    while i <= n - m
        invariant
            m == q.len(),
            n == f.len(),
            0 < m <= n,
            forall|t: int| 0 <= t < m ==> !is_ws(#[trigger] q@[t]),
            forall|j: int| 0 <= j < i ==> !#[trigger] word_at(f@, q@, j),
        decreases n - m + 1 - i,
    {
        let left = i == 0 || is_whitespace_char(f[i - 1]);
        if left && equal_at(f, i, q) && (i + m == n || is_whitespace_char(f[i + m])) {
            assert(word_at(f@, q@, i as int));
            return true;
        }
        i = i + 1;
    }
    assert forall|j: int| !word_at(f@, q@, j) by {
        if 0 <= j && j < i {
        }
    }
    false
}

/// Whether the already lowercased `query_lower` is one of the words of the
/// already lowercased `field_lower`.
pub fn field_has_word(field_lower: &str, query_lower: &str) -> (r: bool)
    ensures
        r == has_word(field_lower@, query_lower@),
{
    let f = chars_of(field_lower);
    let q = chars_of(query_lower);
    contains_word(&f, &q)
}

fn matches_post(p: &SearchPostData, q: &str, q_lower: &Vec<char>) -> (r: bool)
    requires
        q_lower@ == lower_of(q@),
    ensures
        r == post_matches(*p, q@),
{
    let n = p.fields.len();
    let mut f: usize = 0;
    while f < n
        invariant
            n == p.fields.len(),
            f <= n,
            q_lower@ == lower_of(q@),
            forall|g: int| 0 <= g < f ==> !has_word(lower_of(#[trigger] p.fields@[g]@), lower_of(q@)),
        decreases n - f,
    {
        let lowered = lowercase(p.fields[f].as_str());
        let fl = chars_of(lowered.as_str());
        if contains_word(&fl, q_lower) {
            assert(has_word(lower_of(p.fields@[f as int]@), lower_of(q@)));
            return true;
        }
        f = f + 1;
    }
    false
}

/// A word is never empty, so an empty query matches no document.
proof fn lemma_empty_query_matches_nothing(posts: Seq<SearchPostData>, q: Seq<char>)
    requires
        lower_of(q).len() == 0,
    ensures
        matching_metas(posts, q).len() == 0,
    decreases posts.len(),
{
    if posts.len() > 0 {
        lemma_empty_query_matches_nothing(posts.drop_last(), q);
    }
}

/// Matching is done document by document: for three documents of which the
/// first and the third match, the result is their metadata in that order.
pub proof fn lemma_search_keeps_index_order(posts: Seq<SearchPostData>, q: Seq<char>)
    requires
        posts.len() == 3,
        post_matches(posts[0], q),
        !post_matches(posts[1], q),
        post_matches(posts[2], q),
    ensures
        matching_metas(posts, q) == seq![posts[0].meta, posts[2].meta],
{
    let p1 = posts.drop_last().drop_last();
    let p2 = posts.drop_last();
    assert(p1.drop_last() =~= Seq::<SearchPostData>::empty());
    assert(p1.last() == posts[0]);
    assert(p2.last() == posts[1]);
    assert(p2.drop_last() == p1);
    assert(matching_metas(p1.drop_last(), q) == Seq::<serde_json::Value>::empty());
    assert(matching_metas(p1, q) =~= seq![posts[0].meta]);
    assert(matching_metas(p2, q) =~= seq![posts[0].meta]);
    assert(matching_metas(posts, q) =~= seq![posts[0].meta, posts[2].meta]);
}

/// The exact-word engine: a document matches when one of its fields has the
/// query, compared case-insensitively, as a whole word.
pub struct WordSearchEngine {
    posts: Vec<SearchPostData>,
}

impl WordSearchEngine {
    pub closed spec fn documents(&self) -> Seq<SearchPostData> {
        self.posts@
    }

    pub fn new(posts: Vec<SearchPostData>) -> (r: Self)
        ensures
            r.documents() == posts@,
    {
        Self { posts }
    }

    /// The metadata of every matching document, in index order.
    pub fn search(&self, query: &str) -> (r: Vec<serde_json::Value>)
        ensures
            r@ == matching_metas(self.documents(), query@),
            query@.len() == 0 ==> r@.len() == 0,
    {
        let lowered = lowercase(query);
        let ql = chars_of(lowered.as_str());
        let mut out: Vec<serde_json::Value> = Vec::new();
        let n = self.posts.len();
        let mut i: usize = 0;
        while i < n
            invariant
                n == self.posts.len(),
                i <= n,
                ql@ == lower_of(query@),
                out@ == matching_metas(self.posts@.subrange(0, i as int), query@),
            decreases n - i,
        {
            assert(self.posts@.subrange(0, i + 1).drop_last() =~= self.posts@.subrange(0, i as int));
            if matches_post(&self.posts[i], query, &ql) {
                out.push(self.posts[i].meta.clone());
            }
            i = i + 1;
        }
        assert(self.posts@.subrange(0, n as int) =~= self.posts@);
        proof {
            if query@.len() == 0 {
                lemma_empty_query_matches_nothing(self.posts@, query@);
            }
        }
        out
    }
}

impl SearchEngine for WordSearchEngine {
    fn search(&self, query: &str) -> Vec<serde_json::Value> {
        WordSearchEngine::search(self, query)
    }
}

} // verus!
