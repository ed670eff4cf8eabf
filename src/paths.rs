//! File names, extensions and stems of paths given as text.

use vstd::prelude::*;
use crate::text::{chars_of, string_of};

verus! {

/// What `Path::file_name` gives for a path: a function of its text alone.
pub uninterp spec fn file_name_of(p: Seq<char>) -> Option<Seq<char>>;

/// Relies on `Path::file_name`: the final component of the path, if any. A
/// path built from a `str` is valid UTF-8, so the lossy conversion keeps it whole.
#[verifier::external_body]
fn path_file_name(p: &str) -> (r: Option<String>)
    ensures
        r is None ==> file_name_of(p@) is None,
        r matches Some(s) ==> file_name_of(p@) == Some(s@),
{
    std::path::Path::new(p).file_name().map(|n| n.to_string_lossy().into_owned())
}

/// Index of the last `'.'` of `name`, or `-1` when it has none.
pub open spec fn last_dot(name: Seq<char>) -> int
    decreases name.len(),
{
    if name.len() == 0 {
        -1
    } else if name.last() == '.' {
        name.len() - 1
    } else {
        last_dot(name.drop_last())
    }
}

/// The extension of a file name: what follows its last `'.'`, unless it has
/// no `'.'` or its only `'.'` comes first.
pub open spec fn extension_of_name(name: Seq<char>) -> Option<Seq<char>> {
    let d = last_dot(name);
    if d <= 0 {
        None
    } else {
        Some(name.subrange(d + 1, name.len() as int))
    }
}

/// The stem of a file name: what precedes its last `'.'`, or the whole name
/// when there is no extension.
pub open spec fn stem_of_name(name: Seq<char>) -> Seq<char> {
    let d = last_dot(name);
    if d <= 0 {
        name
    } else {
        name.subrange(0, d)
    }
}

pub open spec fn extension_of_path(p: Seq<char>) -> Option<Seq<char>> {
    match file_name_of(p) {
        Some(n) => extension_of_name(n),
        None => None,
    }
}

fn find_last_dot(name: &Vec<char>) -> (r: usize)
    ensures
        last_dot(name@) < 0 ==> r == name.len(),
        last_dot(name@) >= 0 ==> r == last_dot(name@),
{
    let mut k: usize = name.len();
    assert(name@.subrange(0, k as int) =~= name@);
    while k > 0
        invariant
            k <= name.len(),
            last_dot(name@) == last_dot(name@.subrange(0, k as int)),
        decreases k,
    {
        assert(name@.subrange(0, k as int).drop_last() =~= name@.subrange(0, k - 1));
        if name[k - 1] == '.' {
            return k - 1;
        }
        k = k - 1;
    }
    assert(name@.subrange(0, 0) =~= Seq::<char>::empty());
    name.len()
}

proof fn lemma_last_dot_range(name: Seq<char>)
    ensures
        -1 <= last_dot(name) < name.len(),
    decreases name.len(),
{
    if name.len() > 0 {
        lemma_last_dot_range(name.drop_last());
    }
}

/// The extension of a file name, as `Path::extension` defines it.
pub fn name_extension(name: &str) -> (r: Option<String>)
    ensures
        r is None <==> extension_of_name(name@) is None,
        r matches Some(e) ==> extension_of_name(name@) == Some(e@),
{
    let cs = chars_of(name);
    let d = find_last_dot(&cs);
    proof {
        lemma_last_dot_range(cs@);
    }
    if d == 0 || d >= cs.len() {
        None
    } else {
        let mut e: Vec<char> = Vec::new();
        let mut k: usize = d + 1;
        while k < cs.len()
            invariant
                d < k <= cs.len(),
                e@ == cs@.subrange(d + 1, k as int),
            decreases cs.len() - k,
        {
            e.push(cs[k]);
            assert(cs@.subrange(d + 1, k + 1) =~= cs@.subrange(d + 1, k as int).push(cs@[k as int]));
            k = k + 1;
        }
        Some(string_of(&e))
    }
}

/// The stem of a file name, as `Path::file_stem` defines it.
pub fn name_stem(name: &str) -> (r: String)
    ensures
        r@ == stem_of_name(name@),
{
    let cs = chars_of(name);
    let d = find_last_dot(&cs);
    proof {
        lemma_last_dot_range(cs@);
    }
    if d == 0 || d >= cs.len() {
        string_of(&cs)
    } else {
        let mut e: Vec<char> = Vec::new();
        let mut k: usize = 0;
        while k < d
            invariant
                k <= d < cs.len(),
                e@ == cs@.subrange(0, k as int),
            decreases d - k,
        {
            e.push(cs[k]);
            assert(cs@.subrange(0, k + 1) =~= cs@.subrange(0, k as int).push(cs@[k as int]));
            k = k + 1;
        }
        string_of(&e)
    }
}

/// The final component of a path, if any.
pub fn file_name(path: &str) -> (r: Option<String>)
    ensures
        r is None ==> file_name_of(path@) is None,
        r matches Some(s) ==> file_name_of(path@) == Some(s@),
{
    path_file_name(path)
}

/// The extension of a path's final component, as `Path::extension` gives it.
pub fn path_extension(path: &str) -> (r: Option<String>)
    ensures
        r is None <==> extension_of_path(path@) is None,
        r matches Some(e) ==> extension_of_path(path@) == Some(e@),
{
    match path_file_name(path) {
        Some(n) => name_extension(n.as_str()),
        None => None,
    }
}

/// The stem of a path's final component, as `Path::file_stem` gives it.
pub fn path_stem(path: &str) -> (r: Option<String>)
    ensures
        r is None ==> file_name_of(path@) is None,
        r matches Some(s) ==> file_name_of(path@) matches Some(n) && s@ == stem_of_name(n),
{
    match path_file_name(path) {
        Some(n) => Some(name_stem(n.as_str())),
        None => None,
    }
}

/// Whether two character sequences are equal.
pub fn chars_equal(a: &Vec<char>, b: &Vec<char>) -> (r: bool)
    ensures
        r == (a@ == b@),
{
    if a.len() != b.len() {
        return false;
    }
    let mut k: usize = 0;
    while k < a.len()
        invariant
            a.len() == b.len(),
            k <= a.len(),
            forall|t: int| 0 <= t < k ==> a@[t] == b@[t],
        decreases a.len() - k,
    {
        if a[k] != b[k] {
            return false;
        }
        k = k + 1;
    }
    assert(a@ =~= b@);
    true
}

/// Whether `a` holds exactly the text `b`.
pub fn text_is(a: &Vec<char>, b: &str) -> (r: bool)
    ensures
        r == (a@ == b@),
{
    let bc = chars_of(b);
    chars_equal(a, &bc)
}

} // verus!
