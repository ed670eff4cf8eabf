//! Assembly of the whole site: post order, page set and search index.

use vstd::prelude::*;
use crate::config::MejiroConfig;
use crate::html::{aside_html, aside_spec, icon_html, icon_spec, icon_type_of, index_html, index_spec, post_html, post_spec};
use crate::meta::{BlogMeta, Post};
use crate::paths::{chars_equal, extension_of_path, file_name, file_name_of};
use crate::search::{SearchPostData, SearchPostMetaCompile};
use crate::text::{chars_of, join_strings, join_with, strings_view};

verus! {

/// `a` comes strictly before `b` in lexical order of characters, which is the
/// order of `str`'s comparison.
pub open spec fn lex_lt(a: Seq<char>, b: Seq<char>) -> bool
    decreases a.len(),
{
    if a.len() == 0 {
        b.len() > 0
    } else if b.len() == 0 {
        false
    } else if a[0] != b[0] {
        (a[0] as int) < (b[0] as int)
    } else {
        lex_lt(a.drop_first(), b.drop_first())
    }
}

/// Whether `a` comes strictly before `b` in lexical order.
pub fn text_before(a: &str, b: &str) -> (r: bool)
    ensures
        r == lex_lt(a@, b@),
{
    let x = chars_of(a);
    let y = chars_of(b);
    let mut k: usize = 0;
    assert(x@.subrange(0, x@.len() as int) =~= x@);
    assert(y@.subrange(0, y@.len() as int) =~= y@);
    while k < x.len() && k < y.len()
        invariant
            k <= x.len(),
            k <= y.len(),
            x@ == a@,
            y@ == b@,
            lex_lt(x@, y@) == lex_lt(x@.subrange(k as int, x@.len() as int), y@.subrange(
                k as int,
                y@.len() as int,
            )),
        decreases x.len() - k,
    {
        let ghost xs = x@.subrange(k as int, x@.len() as int);
        let ghost ys = y@.subrange(k as int, y@.len() as int);
        assert(xs[0] == x@[k as int]);
        assert(ys[0] == y@[k as int]);
        if x[k] != y[k] {
            return x[k] < y[k];
        }
        assert(xs.drop_first() =~= x@.subrange(k + 1, x@.len() as int));
        assert(ys.drop_first() =~= y@.subrange(k + 1, y@.len() as int));
        k = k + 1;
    }
    k < y.len()
}

pub open spec fn date_of(p: Post) -> Seq<char> {
    p.meta.published_at@
}

/// `p` placed into the newest-first sequence `s`: after every post dated
/// the same or later, before every post dated earlier.
pub open spec fn insert_by_date(s: Seq<Post>, p: Post) -> Seq<Post>
    decreases s.len(),
{
    if s.len() == 0 {
        seq![p]
    } else if lex_lt(date_of(s.last()), date_of(p)) {
        insert_by_date(s.drop_last(), p).push(s.last())
    } else {
        s.push(p)
    }
}

/// The posts newest first by publication date, in descending lexical
/// order; posts with the same date keep their relative order.
pub open spec fn sorted_by_date(s: Seq<Post>) -> Seq<Post>
    decreases s.len(),
{
    if s.len() == 0 {
        seq![]
    } else {
        insert_by_date(sorted_by_date(s.drop_last()), s.last())
    }
}

/// Each post is dated no earlier than every post after it.
pub open spec fn newest_first(s: Seq<Post>) -> bool {
    forall|i: int, j: int| 0 <= i < j < s.len() ==> !lex_lt(date_of(#[trigger] s[i]), date_of(#[trigger] s[j]))
}

proof fn lemma_lex_lt_asymmetric(a: Seq<char>, b: Seq<char>)
    requires
        lex_lt(a, b),
    ensures
        !lex_lt(b, a),
    decreases a.len(),
{
    if a.len() > 0 && b.len() > 0 && a[0] == b[0] {
        lemma_lex_lt_asymmetric(a.drop_first(), b.drop_first());
    }
}

proof fn lemma_lex_le_transitive(x: Seq<char>, y: Seq<char>, z: Seq<char>)
    requires
        !lex_lt(x, y),
        !lex_lt(y, z),
    ensures
        !lex_lt(x, z),
    decreases x.len(),
{
    if x.len() > 0 && y.len() > 0 && z.len() > 0 && x[0] == y[0] && y[0] == z[0] {
        lemma_lex_le_transitive(x.drop_first(), y.drop_first(), z.drop_first());
    }
}

proof fn lemma_insert_position(s: Seq<Post>, p: Post, k: int)
    requires
        0 <= k <= s.len(),
        forall|j: int| k <= j < s.len() ==> lex_lt(date_of(#[trigger] s[j]), date_of(p)),
        k == 0 || !lex_lt(date_of(s[k - 1]), date_of(p)),
    ensures
        insert_by_date(s, p) == s.insert(k, p),
    decreases s.len(),
{
    if s.len() == k {
        assert(s.insert(k, p) =~= s.push(p));
    } else {
        assert(lex_lt(date_of(s[s.len() - 1]), date_of(p)));
        lemma_insert_position(s.drop_last(), p, k);
        assert(s.insert(k, p) =~= s.drop_last().insert(k, p).push(s.last()));
    }
}

/// The posts newest first; posts of the same date keep their order.
pub fn sort_posts(posts: Vec<Post>) -> (r: Vec<Post>)
    ensures
        r@ == sorted_by_date(posts@),
        newest_first(r@),
        r@.to_multiset() == posts@.to_multiset(),
{
    broadcast use vstd::seq_lib::group_to_multiset_ensures, vstd::multiset::group_multiset_axioms;

    let ghost orig = posts@;
    let mut rest = posts;
    let mut out: Vec<Post> = Vec::new();
    let ghost mut taken: int = 0;
    assert(orig.subrange(0, 0) =~= Seq::<Post>::empty());
    assert(orig.subrange(0, orig.len() as int) =~= orig);
    while rest.len() > 0
        invariant
            0 <= taken <= orig.len(),
            rest@ == orig.subrange(taken, orig.len() as int),
            out@ == sorted_by_date(orig.subrange(0, taken)),
            newest_first(out@),
            out@.to_multiset().add(rest@.to_multiset()) == orig.to_multiset(),
        decreases rest.len(),
    {
        let ghost rest_before = rest@;
        let p = rest.remove(0);
        proof {
            assert(rest_before[0] == p);
            assert(rest_before.contains(p));
            vstd::seq_lib::to_multiset_contains(rest_before, p);
            vstd::seq_lib::to_multiset_remove(rest_before, 0);
            assert(rest_before.remove(0) == rest@);
        }
        assert(p == orig[taken]);
        let mut k: usize = out.len();
        while k > 0 && text_before(out[k - 1].meta.published_at.as_str(), p.meta.published_at.as_str())
            invariant
                k <= out.len(),
                forall|j: int| k <= j < out.len() ==> lex_lt(date_of(#[trigger] out@[j]), date_of(p)),
            decreases k,
        {
            k = k - 1;
        }
        let ghost out_before = out@;
        proof {
            lemma_insert_position(out@, p, k as int);
            assert(orig.subrange(0, taken + 1).drop_last() =~= orig.subrange(0, taken));
            assert(rest@ =~= orig.subrange(taken + 1, orig.len() as int));
            taken = taken + 1;
        }
        out.insert(k, p);
        proof {
            assert forall|i: int, j: int| 0 <= i < j < out@.len() implies !lex_lt(
                date_of(#[trigger] out@[i]),
                date_of(#[trigger] out@[j]),
            ) by {
                if j == k {
                    if i < k - 1 {
                        lemma_lex_le_transitive(date_of(out_before[i]), date_of(out_before[k - 1]), date_of(p));
                    }
                } else if i == k {
                    lemma_lex_lt_asymmetric(date_of(out_before[j - 1]), date_of(p));
                } else {
                    let i0 = if i < k { i } else { i - 1 };
                    let j0 = if j < k { j } else { j - 1 };
                    assert(out@[i] == out_before[i0]);
                    assert(out@[j] == out_before[j0]);
                }
            }
            vstd::seq_lib::to_multiset_insert(out_before, k as int, p);
            assert(out@ == out_before.insert(k as int, p));
            assert(out@.to_multiset().add(rest@.to_multiset()) =~= orig.to_multiset());
        }
    }
    assert(orig.subrange(0, taken) =~= orig);
    out
}


/// Where a post's page is written, relative to the output directory.
pub open spec fn page_path_of(name: Seq<char>) -> Seq<char> {
    "posts/"@ + name + ".html"@
}

pub fn post_page_path(name: &str) -> (r: String)
    ensures
        r@ == page_path_of(name@),
{
    let mut r = String::from_str("posts/");
    r.append(name);
    r.append(".html");
    r
}

fn copy_strings(v: &Vec<String>) -> (r: Vec<String>)
    ensures
        r@ == v@,
{
    let mut r: Vec<String> = Vec::new();
    let mut k: usize = 0;
    while k < v.len()
        invariant
            k <= v.len(),
            r@ == v@.subrange(0, k as int),
        decreases v.len() - k,
    {
        r.push(v[k].clone());
        assert(v@.subrange(0, k + 1) =~= v@.subrange(0, k as int).push(v@[k as int]));
        k = k + 1;
    }
    assert(v@.subrange(0, v@.len() as int) =~= v@);
    r
}

fn copy_option(o: &Option<String>) -> (r: Option<String>)
    ensures
        r == *o,
{
    match o {
        Some(t) => Some(t.clone()),
        None => None,
    }
}

/// The texts a query is matched against: title, topics joined with `, `,
/// summary (or nothing), and the markdown body, in that order.
pub open spec fn search_fields_of(p: Post) -> Seq<Seq<char>> {
    seq![
        p.meta.title@,
        join_with(strings_view(p.meta.topics@), ", "@),
        match p.meta.tldr {
            Some(t) => t@,
            None => Seq::empty(),
        },
        p.markdown_body@,
    ]
}

/// The metadata that the index records for a post.
pub fn search_meta(post: &Post) -> (r: SearchPostMetaCompile)
    ensures
        r.title == post.meta.title,
        r.tags@ == post.meta.topics@,
        r.tldr == post.meta.tldr,
        r.path@ == page_path_of(post.name@),
{
    SearchPostMetaCompile {
        title: post.meta.title.clone(),
        tags: copy_strings(&post.meta.topics),
        tldr: copy_option(&post.meta.tldr),
        path: post_page_path(post.name.as_str()),
    }
}

/// The texts of a post that a query is matched against.
pub fn search_fields(post: &Post) -> (r: Vec<String>)
    ensures
        strings_view(r@) == search_fields_of(*post),
{
    let mut r: Vec<String> = Vec::new();
    r.push(post.meta.title.clone());
    r.push(join_strings(&post.meta.topics, ", "));
    match &post.meta.tldr {
        Some(t) => r.push(t.clone()),
        None => r.push(String::new()),
    }
    r.push(post.markdown_body.clone());
    assert(strings_view(r@) =~= search_fields_of(*post));
    r
}

/// The index document of a post: its name, its texts, and `meta` as the
/// metadata to hand back on a match.
pub open spec fn is_document_of(d: SearchPostData, p: Post, meta: serde_json::Value) -> bool {
    &&& d.id@ == p.name@
    &&& strings_view(d.fields@) == search_fields_of(p)
    &&& d.meta == meta
}

pub fn search_document(post: &Post, meta: serde_json::Value) -> (r: SearchPostData)
    ensures
        is_document_of(r, *post, meta),
{
    SearchPostData { id: post.name.clone(), fields: search_fields(post), meta }
}

/// The search index: one document per post, in the posts' order, each with
/// the metadata at the same position of `metas`.
pub fn build_search_index(posts: &[Post], metas: Vec<serde_json::Value>) -> (r: Vec<SearchPostData>)
    requires
        metas@.len() == posts@.len(),
    ensures
        r@.len() == posts@.len(),
        forall|i: int| 0 <= i < posts@.len() ==> is_document_of(#[trigger] r@[i], posts@[i], metas@[i]),
{
    let ghost orig = metas@;
    let mut rest = metas;
    let mut out: Vec<SearchPostData> = Vec::new();
    let mut k: usize = 0;
    while k < posts.len()
        invariant
            k <= posts@.len(),
            orig.len() == posts@.len(),
            rest@ == orig.subrange(k as int, orig.len() as int),
            out@.len() == k,
            forall|i: int| 0 <= i < k ==> is_document_of(#[trigger] out@[i], posts@[i], orig[i]),
        decreases posts@.len() - k,
    {
        let m = rest.remove(0);
        out.push(search_document(&posts[k], m));
        assert(rest@ =~= orig.subrange(k + 1, orig.len() as int));
        k = k + 1;
    }
    out
}

/// The icon's file name, or nothing when its path has none.
pub open spec fn icon_file_name_of(icon: Seq<char>) -> Seq<char> {
    match file_name_of(icon) {
        Some(n) => n,
        None => Seq::empty(),
    }
}

/// A page's icon link for the icon at `icon`.
pub open spec fn icon_link_of(icon: Seq<char>) -> Seq<char> {
    icon_spec(icon, icon_type_of(extension_of_path(icon)))
}

/// The pages of a build: the posts newest first, the index page, and for
/// each post, in the same order, its page path and its page.
pub struct Site {
    pub posts: Vec<Post>,
    pub index_page: String,
    pub post_pages: Vec<(String, String)>,
}

/// The index page, titled with the site title, links the stylesheet by its
/// name; its side bar and icon use the configured icon path; post
/// pages, one directory down, use the icon's file name and the stylesheet
/// one level up.
pub open spec fn site_matches(site: Site, config: MejiroConfig, posts: Seq<Post>, css: Seq<char>, footer: Seq<char>) -> bool {
    let icon = config.styles.icon@;
    let up_icon = "../"@ + icon_file_name_of(icon);
    let o = config.owner;
    &&& site.posts@ == sorted_by_date(posts)
    &&& site.index_page@ == index_spec(
        config.site_title@,
        site.posts@,
        aside_spec(o.name@, o.github_link@, o.linkedin_link@, icon),
        footer,
        icon_link_of(icon),
        css,
    )
    &&& site.post_pages@.len() == site.posts@.len()
    &&& forall|i: int|
        0 <= i < site.posts@.len() ==> (#[trigger] site.post_pages@[i]).0@ == page_path_of(
            site.posts@[i].name@,
        ) && site.post_pages@[i].1@ == post_spec(
            site.posts@[i],
            config.site_title@,
            aside_spec(o.name@, o.github_link@, o.linkedin_link@, up_icon),
            footer,
            icon_link_of(up_icon),
            "../"@ + css,
        )
}

/// Orders the posts and renders the index page and every post page.
pub fn assemble_site(config: &MejiroConfig, posts: Vec<Post>, css_filename: &str, footer: &str) -> (r: Site)
    ensures
        site_matches(r, *config, posts@, css_filename@, footer@),
{
    let sorted = sort_posts(posts);
    let o = &config.owner;
    let icon = config.styles.icon.as_str();
    let index_aside = aside_html(o.name.as_str(), o.github_link.as_str(), o.linkedin_link.as_str(), icon);
    let index_icon = icon_html(icon);
    let index_page = index_html(
        config.site_title.as_str(),
        sorted.as_slice(),
        index_aside.as_str(),
        footer,
        index_icon.as_str(),
        css_filename,
    );
    let mut up_icon = String::from_str("../");
    match file_name(icon) {
        Some(n) => up_icon.append(n.as_str()),
        None => {},
    }
    assert(up_icon@ == "../"@ + icon_file_name_of(icon@));
    let aside = aside_html(o.name.as_str(), o.github_link.as_str(), o.linkedin_link.as_str(), up_icon.as_str());
    let icon_link = icon_html(up_icon.as_str());
    let mut css = String::from_str("../");
    css.append(css_filename);
    let mut pages: Vec<(String, String)> = Vec::new();
    let mut k: usize = 0;
    while k < sorted.len()
        invariant
            k <= sorted@.len(),
            pages@.len() == k,
            forall|i: int|
                0 <= i < k ==> (#[trigger] pages@[i]).0@ == page_path_of(sorted@[i].name@)
                    && pages@[i].1@ == post_spec(
                    sorted@[i],
                    config.site_title@,
                    aside@,
                    footer@,
                    icon_link@,
                    css@,
                ),
        decreases sorted@.len() - k,
    {
        let path = post_page_path(sorted[k].name.as_str());
        let page = post_html(&sorted[k], config.site_title.as_str(), aside.as_str(), footer, icon_link.as_str(), css.as_str());
        pages.push((path, page));
        k = k + 1;
    }
    Site { posts: sorted, index_page, post_pages: pages }
}


/// Two posts that would be published under the same page name: the first
/// such pair in order, by the position of the later post and then of the
/// earlier one; `None` when all names differ.
pub fn find_name_collision(posts: &[Post]) -> (r: Option<(usize, usize)>)
    ensures
        r is None ==> forall|i: int, j: int|
            0 <= i < j < posts@.len() ==> (#[trigger] posts@[i]).name@ != (#[trigger] posts@[j]).name@,
        r matches Some((i, j)) ==> i < j < posts@.len() && posts@[i as int].name@ == posts@[j as int].name@
            && (forall|a: int, b: int|
            0 <= a < b < j ==> (#[trigger] posts@[a]).name@ != (#[trigger] posts@[b]).name@) && (
        forall|a: int| 0 <= a < i ==> (#[trigger] posts@[a]).name@ != posts@[j as int].name@),
{
    let mut j: usize = 0;
    while j < posts.len()
        invariant
            j <= posts@.len(),
            forall|a: int, b: int|
                0 <= a < b < j ==> (#[trigger] posts@[a]).name@ != (#[trigger] posts@[b]).name@,
        decreases posts@.len() - j,
    {
        let b = chars_of(posts[j].name.as_str());
        let mut i: usize = 0;
        while i < j
            invariant
                i <= j < posts@.len(),
                b@ == posts@[j as int].name@,
                forall|a: int, c: int|
                    0 <= a < c < j ==> (#[trigger] posts@[a]).name@ != (#[trigger] posts@[c]).name@,
                forall|a: int| 0 <= a < i ==> (#[trigger] posts@[a]).name@ != posts@[j as int].name@,
            decreases j - i,
        {
            let a = chars_of(posts[i].name.as_str());
            if chars_equal(&a, &b) {
                return Some((i, j));
            }
            i = i + 1;
        }
        j = j + 1;
    }
    None
}

} // verus!
