//! Post metadata and the front matter that carries it.

use vstd::prelude::*;
use crate::text::{chars_of, is_whitespace_char, is_ws, join_chars, join_with, lines_of, split_lines, string_of, views_of};

verus! {

/// Why a document could not be turned into a post.
#[derive(Debug, Clone, PartialEq, Eq)]
pub enum BlogParseError {
    /// The first line of the document is not a `---` delimiter.
    MetadataNotFound,
    /// The metadata block could not be decoded; holds the decoder's first message line.
    YamlParseError(String),
    /// The document could not be read.
    IoError(String),
}

/// Metadata decoded from the front matter of a post.
#[derive(Debug, Clone, PartialEq, Eq)]
pub struct BlogMeta {
    pub title: String,
    pub topics: Vec<String>,
    pub published: bool,
    pub published_at: String,
    pub tldr: Option<String>,
}

/// The sentinel line `---`.
pub open spec fn dashes() -> Seq<char> {
    seq!['-', '-', '-']
}

/// `line`, trimmed of surrounding whitespace, is exactly `---`.
pub open spec fn is_delimiter(line: Seq<char>) -> bool {
    exists|i: int|
        #![trigger line.subrange(i, i + 3)]
        0 <= i && i + 3 <= line.len() && line.subrange(i, i + 3) == dashes() && (forall|k: int|
            0 <= k < i ==> is_ws(#[trigger] line[k])) && (forall|k: int|
            i + 3 <= k < line.len() ==> is_ws(#[trigger] line[k]))
}

/// Index of the first delimiter line at or after `j`, or `ls.len()` if none.
pub open spec fn closing_from(ls: Seq<Seq<char>>, j: int) -> int
    decreases ls.len() - j,
{
    if j >= ls.len() {
        ls.len() as int
    } else if is_delimiter(ls[j]) {
        j
    } else {
        closing_from(ls, j + 1)
    }
}

pub open spec fn newline() -> Seq<char> {
    seq!['\n']
}

/// The document begins with a delimiter line.
pub open spec fn starts_with_delimiter(content: Seq<char>) -> bool {
    lines_of(content).len() > 0 && is_delimiter(lines_of(content)[0])
}

/// The metadata block and the body of a document: the lines between the
/// opening delimiter and the next delimiter line, and the lines after that
/// one, each joined with newlines. `None` when the first line is no delimiter.
pub open spec fn front_matter_of(content: Seq<char>) -> Option<(Seq<char>, Seq<char>)> {
    let ls = lines_of(content);
    if !starts_with_delimiter(content) {
        None
    } else {
        let j = closing_from(ls, 1);
        let body_start = if j < ls.len() { j + 1 } else { ls.len() as int };
        Some(
            (
                join_with(ls.subrange(1, j), newline()),
                join_with(ls.subrange(body_start, ls.len() as int), newline()),
            ),
        )
    }
}

fn is_delimiter_line(line: &Vec<char>) -> (r: bool)
    ensures
        r == is_delimiter(line@),
{
    let n = line.len();
    let mut i: usize = 0;
    while i < n && is_whitespace_char(line[i])
        invariant
            i <= n == line.len(),
            forall|k: int| 0 <= k < i ==> is_ws(#[trigger] line@[k]),
        decreases n - i,
    {
        i = i + 1;
    }
    if n < 3 || i > n - 3 || line[i] != '-' || line[i + 1] != '-' || line[i + 2] != '-' {
        proof {
            if is_delimiter(line@) {
                let w = choose|w: int|
                    #![trigger line@.subrange(w, w + 3)]
                    0 <= w && w + 3 <= line@.len() && line@.subrange(w, w + 3) == dashes() && (
                    forall|k: int| 0 <= k < w ==> is_ws(#[trigger] line@[k])) && (forall|k: int|
                        w + 3 <= k < line@.len() ==> is_ws(#[trigger] line@[k]));
                assert(line@.subrange(w, w + 3)[0] == '-');
                if w < i {
                    assert(is_ws(line@[w]));
                }
                if w > i {
                    assert(is_ws(line@[i as int]));
                }
                assert(w == i);
                assert(line@.subrange(w, w + 3)[1] == '-');
                assert(line@.subrange(w, w + 3)[2] == '-');
            }
        }
        return false;
    }
    let mut k: usize = i + 3;
    while k < n
        invariant
            i + 3 <= k <= n == line.len(),
            line@[i as int] == '-',
            forall|m: int| 0 <= m < i ==> is_ws(#[trigger] line@[m]),
            forall|m: int| i + 3 <= m < k ==> is_ws(#[trigger] line@[m]),
        decreases n - k,
    {
        if !is_whitespace_char(line[k]) {
            proof {
                if is_delimiter(line@) {
                    let w = choose|w: int|
                        #![trigger line@.subrange(w, w + 3)]
                        0 <= w && w + 3 <= line@.len() && line@.subrange(w, w + 3) == dashes() && (
                        forall|m: int| 0 <= m < w ==> is_ws(#[trigger] line@[m])) && (forall|
                            m: int,
                        |
                            w + 3 <= m < line@.len() ==> is_ws(#[trigger] line@[m]));
                    assert(line@.subrange(w, w + 3)[0] == '-');
                    if w < i {
                        assert(is_ws(line@[w]));
                    }
                    if w > i {
                        assert(is_ws(line@[i as int]));
                    }
                    assert(w == i);
                    assert(is_ws(line@[k as int]));
                }
            }
            return false;
        }
        k = k + 1;
    }
    assert(line@.subrange(i as int, i + 3) =~= dashes());
    true
}

/// Splits a document into its metadata block and its body. The document must
/// open with a `---` line; the block runs up to the next `---` line (or to the
/// end), and the body is everything after that line.
pub fn split_front_matter(content: &str) -> (r: Result<(String, String), BlogParseError>)
    ensures
        !starts_with_delimiter(content@) ==> r == Err::<(String, String), BlogParseError>(
            BlogParseError::MetadataNotFound,
        ),
        front_matter_of(content@) matches Some((m, b)) ==> r is Ok && r->Ok_0.0@ == m
            && r->Ok_0.1@ == b,
{
    let cs = chars_of(content);
    let ls = split_lines(&cs);
    proof {
        assert(views_of(ls@).len() == ls@.len());
    }
    if ls.len() == 0 || !is_delimiter_line(&ls[0]) {
        return Err(BlogParseError::MetadataNotFound);
    }
    let ghost lv = views_of(ls@);
    let mut j: usize = 1;
    while j < ls.len() && !is_delimiter_line(&ls[j])
        invariant
            1 <= j <= ls.len(),
            lv == views_of(ls@),
            lv == lines_of(content@),
            closing_from(lv, j as int) == closing_from(lv, 1),
        decreases ls.len() - j,
    {
        j = j + 1;
    }
    let nl: Vec<char> = vec!['\n'];
    assert(nl@ =~= newline());
    let meta = join_chars(&ls, 1, j, &nl);
    let body_start: usize = if j < ls.len() { j + 1 } else { ls.len() };
    let body = join_chars(&ls, body_start, ls.len(), &nl);
    Ok((string_of(&meta), string_of(&body)))
}

/// The message of a decoding failure: the first line of the decoder's message,
/// or `unknown error` when it has none.
pub open spec fn first_line_or_unknown(msg: Seq<char>) -> Seq<char> {
    if lines_of(msg).len() > 0 {
        lines_of(msg)[0]
    } else {
        "unknown error"@
    }
}

impl BlogParseError {
    /// The error for a metadata block that the decoder refused with `msg`.
    pub fn yaml_parse_error(msg: &str) -> (r: BlogParseError)
        ensures
            r matches BlogParseError::YamlParseError(m) && m@ == first_line_or_unknown(msg@),
    {
        let cs = chars_of(msg);
        let ls = split_lines(&cs);
        proof {
            assert(views_of(ls@).len() == ls@.len());
        }
        if ls.len() > 0 {
            BlogParseError::YamlParseError(string_of(&ls[0]))
        } else {
            BlogParseError::YamlParseError(String::from_str("unknown error"))
        }
    }
}


/// The message with which `serde_yaml` refuses to read a text as YAML, or
/// `None` when it reads it: a function of the text alone.
pub uninterp spec fn yaml_syntax_error_of(s: Seq<char>) -> Option<Seq<char>>;

/// Relies on `serde_yaml::from_str` into `serde_yaml::Value` and the error's
/// `Display`: the decoder's message when the text is not well-formed YAML.
#[verifier::external_body]
fn yaml_syntax_error(s: &str) -> (r: Option<String>)
    ensures
        r is None ==> yaml_syntax_error_of(s@) is None,
        r matches Some(m) ==> yaml_syntax_error_of(s@) == Some(m@),
{
    serde_yaml::from_str::<serde_yaml::Value>(s).err().map(|e| e.to_string())
}

/// Reads a document's front matter: the metadata block and the body.
/// Fails with `MetadataNotFound` when the document does not open with a
/// delimiter line, and with `YamlParseError`, holding the first line of the
/// decoder's message, when the block is not well-formed YAML.
pub fn parse_front_matter(content: &str) -> (r: Result<(String, String), BlogParseError>)
    ensures
        !starts_with_delimiter(content@) ==> r == Err::<(String, String), BlogParseError>(
            BlogParseError::MetadataNotFound,
        ),
        front_matter_of(content@) matches Some((m, b)) ==> match yaml_syntax_error_of(m) {
            Some(msg) => r matches Err(BlogParseError::YamlParseError(e)) && e@
                == first_line_or_unknown(msg),
            None => r matches Ok((mm, bb)) && mm@ == m && bb@ == b,
        },
{
    let (block, body) = split_front_matter(content)?;
    match yaml_syntax_error(block.as_str()) {
        Some(msg) => Err(BlogParseError::yaml_parse_error(msg.as_str())),
        None => Ok((block, body)),
    }
}

/// What `pulldown_cmark` renders for a markdown text: a function of the text alone.
pub uninterp spec fn markdown_html_of(md: Seq<char>) -> Seq<char>;

/// Relies on `pulldown_cmark::html::push_html` over `pulldown_cmark::Parser::new`:
/// the CommonMark rendering of `md`, appended to an empty string.
#[verifier::external_body]
fn render_markdown(md: &str) -> (r: String)
    ensures
        r@ == markdown_html_of(md@),
{
    let mut out = String::new();
    pulldown_cmark::html::push_html(&mut out, pulldown_cmark::Parser::new(md));
    out
}

/// A published post: its metadata, its body as markdown and as HTML, and the
/// name it is published under (its file name without extension).
#[derive(Debug, Clone, PartialEq, Eq)]
pub struct Post {
    pub meta: BlogMeta,
    pub html_body: String,
    pub markdown_body: String,
    pub name: String,
}

impl Post {
    /// The post for a decoded document, or `None` when it is not published.
    pub fn from_document(meta: BlogMeta, markdown_body: String, name: String) -> (r: Option<Post>)
        ensures
            !meta.published ==> r is None,
            meta.published ==> (r matches Some(p) && p.meta == meta && p.markdown_body
                == markdown_body && p.name == name && p.html_body@ == markdown_html_of(
                markdown_body@,
            )),
    {
        if !meta.published {
            return None;
        }
        let html_body = render_markdown(markdown_body.as_str());
        Some(Post { meta, html_body, markdown_body, name })
    }
}

impl BlogMeta {
    /// The metadata of a new, unpublished post dated `today`.
    pub fn new_post(today: &str) -> (r: BlogMeta)
        ensures
            r.title@ == "New Post"@,
            r.topics@.len() == 0,
            !r.published,
            r.published_at@ == today@,
            r.tldr matches Some(t) && t@ == "A short summary here."@,
    {
        BlogMeta {
            title: String::from_str("New Post"),
            topics: Vec::new(),
            published: false,
            published_at: String::from_str(today),
            tldr: Some(String::from_str("A short summary here.")),
        }
    }

    /// Whether a listing shows this post: always when `all` is set, else only
    /// when it is published.
    pub fn is_listed(&self, all: bool) -> (r: bool)
        ensures
            r == (all || self.published),
    {
        all || self.published
    }
}

impl BlogParseError {
    /// A message for people.
    pub fn message(&self) -> (r: String)
        ensures
            self is MetadataNotFound ==> r@ == "The markdown file is missing a metadata (YAML) header."@,
            self matches BlogParseError::YamlParseError(m) ==> r@ == "Failed to parse metadata: "@ + m@,
            self matches BlogParseError::IoError(m) ==> r@ == "File error: "@ + m@,
    {
        match self {
            BlogParseError::MetadataNotFound => String::from_str(
                "The markdown file is missing a metadata (YAML) header.",
            ),
            BlogParseError::YamlParseError(m) => {
                let mut r = String::from_str("Failed to parse metadata: ");
                r.append(m.as_str());
                r
            },
            BlogParseError::IoError(m) => {
                let mut r = String::from_str("File error: ");
                r.append(m.as_str());
                r
            },
        }
    }
}


/// The file name of a new post: `<date>-<suffix>.md`.
pub fn new_post_file_name(date: &str, suffix: &str) -> (r: String)
    ensures
        r@ == date@ + "-"@ + suffix@ + ".md"@,
{
    let mut r = String::from_str(date);
    r.append("-");
    r.append(suffix);
    r.append(".md");
    r
}

pub const NEW_POST_BODY: &'static str = "---\n\n# New Post\n\nWrite your content here!\n";

/// A new post's document: the serialised metadata between delimiter lines
/// (the metadata text ends with its own newline), then a placeholder body.
pub fn new_post_document(front_matter: &str) -> (r: String)
    ensures
        r@ == "---\n"@ + front_matter@ + NEW_POST_BODY@,
{
    let mut r = String::from_str("---\n");
    r.append(front_matter);
    r.append(NEW_POST_BODY);
    r
}

} // verus!
