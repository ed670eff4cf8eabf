//! `@code[path]` directives: the language of an included file, and the
//! expansion of directives into fenced code blocks.

use vstd::prelude::*;
use crate::paths::{extension_of_path, path_extension, text_is};
use crate::text::{chars_of, find_chars, find_from, lemma_find_from_range, string_of, views_of};

verus! {

/// The highlighting language for a file extension, or empty when unknown.
pub open spec fn language_of_extension(e: Seq<char>) -> Seq<char> {
    if e == "rs"@ {
        "rust"@
    } else if e == "py"@ {
        "python"@
    } else if e == "js"@ || e == "jsx"@ {
        "javascript"@
    } else if e == "ts"@ || e == "tsx"@ {
        "typescript"@
    } else if e == "java"@ {
        "java"@
    } else if e == "c"@ {
        "c"@
    } else if e == "cpp"@ || e == "cc"@ || e == "cxx"@ || e == "hpp"@ || e == "h"@ {
        "cpp"@
    } else if e == "go"@ {
        "go"@
    } else if e == "rb"@ {
        "ruby"@
    } else if e == "sh"@ || e == "bash"@ {
        "bash"@
    } else if e == "yaml"@ || e == "yml"@ {
        "yaml"@
    } else if e == "json"@ {
        "json"@
    } else if e == "html"@ {
        "html"@
    } else if e == "css"@ {
        "css"@
    } else if e == "scss"@ || e == "sass"@ {
        "scss"@
    } else if e == "md"@ {
        "markdown"@
    } else if e == "sql"@ {
        "sql"@
    } else if e == "xml"@ {
        "xml"@
    } else if e == "toml"@ {
        "toml"@
    } else if e == "r"@ {
        "r"@
    } else if e == "php"@ {
        "php"@
    } else if e == "swift"@ {
        "swift"@
    } else if e == "kt"@ || e == "kts"@ {
        "kotlin"@
    } else if e == "scala"@ {
        "scala"@
    } else {
        ""@
    }
}

/// The highlighting language of a file, from its extension.
pub open spec fn language_of_path(p: Seq<char>) -> Seq<char> {
    match extension_of_path(p) {
        Some(e) => language_of_extension(e),
        None => ""@,
    }
}

/// The highlighting language for an extension.
pub fn language_for_extension(ext: &str) -> (r: &'static str)
    ensures
        r@ == language_of_extension(ext@),
{
    let e = chars_of(ext);
    if text_is(&e, "rs") {
        "rust"
    } else if text_is(&e, "py") {
        "python"
    } else if text_is(&e, "js") || text_is(&e, "jsx") {
        "javascript"
    } else if text_is(&e, "ts") || text_is(&e, "tsx") {
        "typescript"
    } else if text_is(&e, "java") {
        "java"
    } else if text_is(&e, "c") {
        "c"
    } else if text_is(&e, "cpp") || text_is(&e, "cc") || text_is(&e, "cxx") || text_is(&e, "hpp")
        || text_is(&e, "h") {
        "cpp"
    } else if text_is(&e, "go") {
        "go"
    } else if text_is(&e, "rb") {
        "ruby"
    } else if text_is(&e, "sh") || text_is(&e, "bash") {
        "bash"
    } else if text_is(&e, "yaml") || text_is(&e, "yml") {
        "yaml"
    } else if text_is(&e, "json") {
        "json"
    } else if text_is(&e, "html") {
        "html"
    } else if text_is(&e, "css") {
        "css"
    } else if text_is(&e, "scss") || text_is(&e, "sass") {
        "scss"
    } else if text_is(&e, "md") {
        "markdown"
    } else if text_is(&e, "sql") {
        "sql"
    } else if text_is(&e, "xml") {
        "xml"
    } else if text_is(&e, "toml") {
        "toml"
    } else if text_is(&e, "r") {
        "r"
    } else if text_is(&e, "php") {
        "php"
    } else if text_is(&e, "swift") {
        "swift"
    } else if text_is(&e, "kt") || text_is(&e, "kts") {
        "kotlin"
    } else if text_is(&e, "scala") {
        "scala"
    } else {
        ""
    }
}

/// The highlighting language of the file at `path`, or empty when its
/// extension is missing or unknown.
pub fn infer_language_from_path(path: &str) -> (r: &'static str)
    ensures
        r@ == language_of_path(path@),
{
    match path_extension(path) {
        Some(e) => language_for_extension(e.as_str()),
        None => "",
    }
}


/// The opening of a directive, `@code[`.
pub open spec fn marker() -> Seq<char> {
    seq!['@', 'c', 'o', 'd', 'e', '[']
}

pub open spec fn bracket() -> Seq<char> {
    seq![']']
}

pub const FENCE_OPEN: &'static str = "```";
pub const FENCE_CLOSE: &'static str = "\n```";

/// A fenced code block in the given language.
pub open spec fn fence_spec(lang: Seq<char>, code: Seq<char>) -> Seq<char> {
    FENCE_OPEN@ + lang + seq!['\n'] + code + FENCE_CLOSE@
}

pub open spec fn contents_view(v: Seq<Option<String>>) -> Seq<Option<Seq<char>>> {
    v.map_values(
        |o: Option<String>|
            match o {
                Some(c) => Some(c@),
                None => None,
            },
    )
}

/// The paths named by the complete directives of `s` from position `i` on, in order.
pub open spec fn directives_from(s: Seq<char>, i: int) -> Seq<Seq<char>>
    decreases s.len() + 1 - i,
    via directives_from_decreases
{
    let st = find_from(s, marker(), i);
    if st < 0 {
        seq![]
    } else {
        let e = find_from(s, bracket(), st + 6);
        if e < 0 {
            directives_from(s, st + 6)
        } else {
            seq![s.subrange(st + 6, e)] + directives_from(s, e + 1)
        }
    }
}

#[via_fn]
proof fn directives_from_decreases(s: Seq<char>, i: int) {
    lemma_find_from_range(s, marker(), i);
    let st = find_from(s, marker(), i);
    if st >= 0 {
        lemma_find_from_range(s, bracket(), st + 6);
    }
}

/// `s` from position `i` on, with each complete directive replaced by a code
/// block holding the next of `contents`, or left as it is where that content
/// is missing. An opening without a closing `]` is kept as text.
pub open spec fn expand_from(s: Seq<char>, contents: Seq<Option<Seq<char>>>, i: int) -> Seq<char>
    decreases s.len() + 1 - i,
    via expand_from_decreases
{
    let st = find_from(s, marker(), i);
    if st < 0 {
        s.subrange(i, s.len() as int)
    } else {
        let e = find_from(s, bracket(), st + 6);
        if e < 0 {
            s.subrange(i, st) + marker() + expand_from(s, contents, st + 6)
        } else {
            let path = s.subrange(st + 6, e);
            let found = if contents.len() > 0 { contents[0] } else { None };
            let rest = if contents.len() > 0 { contents.drop_first() } else { contents };
            let piece = match found {
                Some(code) => fence_spec(language_of_path(path), code),
                None => s.subrange(st, e + 1),
            };
            s.subrange(i, st) + piece + expand_from(s, rest, e + 1)
        }
    }
}

#[via_fn]
proof fn expand_from_decreases(s: Seq<char>, contents: Seq<Option<Seq<char>>>, i: int) {
    lemma_find_from_range(s, marker(), i);
    let st = find_from(s, marker(), i);
    if st >= 0 {
        lemma_find_from_range(s, bracket(), st + 6);
    }
}

/// Where no included file was found, every directive stays as it is and the
/// text comes back unchanged.
pub proof fn lemma_nothing_found_keeps_text(s: Seq<char>, contents: Seq<Option<Seq<char>>>, i: int)
    requires
        0 <= i <= s.len(),
        forall|k: int| 0 <= k < contents.len() ==> contents[k] is None,
    ensures
        expand_from(s, contents, i) == s.subrange(i, s.len() as int),
    decreases s.len() + 1 - i,
{
    lemma_find_from_range(s, marker(), i);
    let st = find_from(s, marker(), i);
    if st >= 0 {
        lemma_find_from_range(s, bracket(), st + 6);
        let e = find_from(s, bracket(), st + 6);
        if e < 0 {
            lemma_nothing_found_keeps_text(s, contents, st + 6);
            assert(s.subrange(i, st) + marker() + s.subrange(st + 6, s.len() as int) =~= s.subrange(
                i,
                s.len() as int,
            ));
        } else {
            let rest = if contents.len() > 0 { contents.drop_first() } else { contents };
            assert forall|k: int| 0 <= k < rest.len() implies rest[k] is None by {
                if contents.len() > 0 {
                    assert(rest[k] == contents[k + 1]);
                }
            }
            if contents.len() > 0 {
                assert(contents[0] is None);
            }
            lemma_nothing_found_keeps_text(s, rest, e + 1);
            assert(s.subrange(i, st) + s.subrange(st, e + 1) + s.subrange(e + 1, s.len() as int)
                =~= s.subrange(i, s.len() as int));
        }
    }
}

fn push_range(r: &mut Vec<char>, s: &Vec<char>, from: usize, to: usize)
    requires
        from <= to <= s.len(),
    ensures
        final(r)@ == old(r)@ + s@.subrange(from as int, to as int),
{
    let mut k: usize = from;
    while k < to
        invariant
            from <= k <= to <= s.len(),
            r@ == old(r)@ + s@.subrange(from as int, k as int),
        decreases to - k,
    {
        r.push(s[k]);
        assert(s@.subrange(from as int, k + 1) =~= s@.subrange(from as int, k as int).push(s@[k as int]));
        k = k + 1;
    }
}

fn push_str_chars(r: &mut Vec<char>, t: &str)
    ensures
        final(r)@ == old(r)@ + t@,
{
    let c = chars_of(t);
    push_range(r, &c, 0, c.len());
    assert(c@.subrange(0, c@.len() as int) =~= c@);
}

/// The paths named by the `@code[path]` directives of `markdown`, in order.
pub fn code_include_paths(markdown: &str) -> (r: Vec<String>)
    ensures
        r@.map_values(|p: String| p@) == directives_from(markdown@, 0),
{
    let s = chars_of(markdown);
    let mk: Vec<char> = vec!['@', 'c', 'o', 'd', 'e', '['];
    let br: Vec<char> = vec![']'];
    assert(mk@ =~= marker());
    assert(br@ =~= bracket());
    let mut out: Vec<String> = Vec::new();
    let mut last: usize = 0;
    loop
        invariant
            last <= s.len(),
            s@ == markdown@,
            mk@ == marker(),
            br@ == bracket(),
            out@.map_values(|p: String| p@) + directives_from(s@, last as int) == directives_from(
                s@,
                0,
            ),
        decreases s.len() - last,
    {
        match find_chars(&s, &mk, last) {
            None => {
                assert(out@.map_values(|p: String| p@) + directives_from(s@, last as int)
                    =~= out@.map_values(|p: String| p@));
                return out;
            },
            Some(st) => match find_chars(&s, &br, st + 6) {
                None => {
                    last = st + 6;
                },
                Some(e) => {
                    let mut path: Vec<char> = Vec::new();
                    push_range(&mut path, &s, st + 6, e);
                    let ghost before = out@.map_values(|p: String| p@);
                    let ps = string_of(&path);
                    out.push(ps);
                    assert(out@.map_values(|p: String| p@) =~= before.push(ps@));
                    assert(before + directives_from(s@, last as int) =~= before + (seq![ps@]
                        + directives_from(s@, e + 1)));
                    assert(out@.map_values(|p: String| p@) + directives_from(s@, e + 1) =~= before
                        + (seq![ps@] + directives_from(s@, e + 1)));
                    last = e + 1;
                },
            },
        }
    }
}

/// `markdown` with each complete `@code[path]` directive replaced by a fenced
/// code block of the matching entry of `contents` (entries follow the
/// directives in order), in the language of the path's extension. A
/// directive whose entry is `None`, or has none, stays as it is.
pub fn expand_code_includes(markdown: &str, contents: &Vec<Option<String>>) -> (r: String)
    ensures
        r@ == expand_from(markdown@, contents_view(contents@), 0),
        (forall|k: int| 0 <= k < contents@.len() ==> contents@[k] is None) ==> r@ == markdown@,
{
    proof {
        let cv = contents_view(contents@);
        if forall|k: int| 0 <= k < contents@.len() ==> contents@[k] is None {
            assert forall|k: int| 0 <= k < cv.len() implies cv[k] is None by {
                assert(contents@[k] is None);
            }
            lemma_nothing_found_keeps_text(markdown@, cv, 0);
            assert(markdown@.subrange(0, markdown@.len() as int) =~= markdown@);
        }
    }
    let s = chars_of(markdown);
    let mk: Vec<char> = vec!['@', 'c', 'o', 'd', 'e', '['];
    let br: Vec<char> = vec![']'];
    assert(mk@ =~= marker());
    assert(br@ =~= bracket());
    let ghost cv = contents_view(contents@);
    let mut out: Vec<char> = Vec::new();
    let mut last: usize = 0;
    let mut ci: usize = 0;
    assert(cv.subrange(0, cv.len() as int) =~= cv);
    loop
        invariant
            last <= s.len(),
            ci <= contents.len(),
            s@ == markdown@,
            mk@ == marker(),
            br@ == bracket(),
            cv == contents_view(contents@),
            (forall|k: int| 0 <= k < contents@.len() ==> contents@[k] is None) ==> expand_from(
                s@,
                cv,
                0,
            ) == markdown@,
            out@ + expand_from(s@, cv.subrange(ci as int, cv.len() as int), last as int) == expand_from(
                s@,
                cv,
                0,
            ),
        decreases s.len() - last,
    {
        let ghost rest = cv.subrange(ci as int, cv.len() as int);
        match find_chars(&s, &mk, last) {
            None => {
                push_range(&mut out, &s, last, s.len());
                return string_of(&out);
            },
            Some(st) => match find_chars(&s, &br, st + 6) {
                None => {
                    push_range(&mut out, &s, last, st);
                    push_range(&mut out, &mk, 0, 6);
                    assert(mk@.subrange(0, 6) =~= marker());
                    assert(out@ + expand_from(s@, rest, st + 6) =~= out@ + expand_from(s@, rest, st + 6));
                    last = st + 6;
                },
                Some(e) => {
                    let ghost before = out@;
                    push_range(&mut out, &s, last, st);
                    let found: Option<&String> = if ci < contents.len() {
                        match &contents[ci] {
                            Some(c) => Some(c),
                            None => None,
                        }
                    } else {
                        None
                    };
                    match found {
                        Some(code) => {
                            let mut path: Vec<char> = Vec::new();
                            push_range(&mut path, &s, st + 6, e);
                            let ps = string_of(&path);
                            let lang = infer_language_from_path(ps.as_str());
                            push_str_chars(&mut out, FENCE_OPEN);
                            push_str_chars(&mut out, lang);
                            out.push('\n');
                            push_str_chars(&mut out, code.as_str());
                            push_str_chars(&mut out, FENCE_CLOSE);
                        },
                        None => {
                            push_range(&mut out, &s, st, e + 1);
                        },
                    }
                    let ghost next = if ci < contents.len() { (ci + 1) as int } else { ci as int };
                    assert(rest.len() > 0 ==> rest.drop_first() =~= cv.subrange(next, cv.len() as int));
                    assert(rest.len() == 0 ==> rest =~= cv.subrange(next, cv.len() as int));
                    assert(out@ + expand_from(s@, cv.subrange(next, cv.len() as int), e + 1)
                        =~= before + expand_from(s@, rest, last as int));
                    if ci < contents.len() {
                        ci = ci + 1;
                    }
                    last = e + 1;
                },
            },
        }
    }
}

} // verus!
