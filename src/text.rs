//! Character-level text helpers shared by the parser, the page renderer and
//! the search engine.

use vstd::prelude::*;

verus! {

/// Unicode `White_Space` property, as used by `char::is_whitespace`,
/// `str::trim` and `str::split_whitespace`.
pub open spec fn is_ws(c: char) -> bool {
    ('\u{9}' <= c && c <= '\u{d}') || c == ' ' || c == '\u{85}' || c == '\u{a0}'
        || c == '\u{1680}' || ('\u{2000}' <= c && c <= '\u{200a}') || c == '\u{2028}'
        || c == '\u{2029}' || c == '\u{202f}' || c == '\u{205f}' || c == '\u{3000}'
}

/// Whether `c` is whitespace, as `char::is_whitespace` decides.
pub fn is_whitespace_char(c: char) -> (r: bool)
    ensures
        r == is_ws(c),
{
    ('\u{9}' <= c && c <= '\u{d}') || c == ' ' || c == '\u{85}' || c == '\u{a0}'
        || c == '\u{1680}' || ('\u{2000}' <= c && c <= '\u{200a}') || c == '\u{2028}'
        || c == '\u{2029}' || c == '\u{202f}' || c == '\u{205f}' || c == '\u{3000}'
}

/// Relies on `Iterator::collect` over `str::chars`: the characters of `s`, in order.
#[verifier::external_body]
pub(crate) fn chars_of(s: &str) -> (r: Vec<char>)
    ensures
        r@ == s@,
{
    s.chars().collect()
}

/// Relies on `String: FromIterator<char>`: the string made of `v`'s characters, in order.
#[verifier::external_body]
pub(crate) fn string_of(v: &Vec<char>) -> (r: String)
    ensures
        r@ == v@,
{
    v.iter().collect()
}


/// Drops one `'\r'` that ends a line terminated by `'\n'`.
pub open spec fn strip_cr(l: Seq<char>) -> Seq<char> {
    if l.len() > 0 && l.last() == '\r' {
        l.drop_last()
    } else {
        l
    }
}

/// The lines of `s` from position `i` on, the current line having begun at
/// `start`: lines end at `'\n'` (an `"\r\n"` ending is dropped whole), and a
/// final line ending adds no empty line, as `str::lines` does.
pub open spec fn lines_from(s: Seq<char>, start: int, i: int) -> Seq<Seq<char>>
    recommends
        0 <= start <= i,
    decreases s.len() - i,
{
    if i >= s.len() {
        if start < s.len() {
            seq![s.subrange(start, s.len() as int)]
        } else {
            seq![]
        }
    } else if s[i] == '\n' {
        seq![strip_cr(s.subrange(start, i))] + lines_from(s, i + 1, i + 1)
    } else {
        lines_from(s, start, i + 1)
    }
}

pub open spec fn lines_of(s: Seq<char>) -> Seq<Seq<char>> {
    lines_from(s, 0, 0)
}

/// The pieces of `ls` joined with `sep` between each two, as `[T]::join` does.
pub open spec fn join_with(ls: Seq<Seq<char>>, sep: Seq<char>) -> Seq<char>
    decreases ls.len(),
{
    if ls.len() == 0 {
        seq![]
    } else if ls.len() == 1 {
        ls[0]
    } else {
        join_with(ls.drop_last(), sep) + sep + ls.last()
    }
}

pub open spec fn views_of(v: Seq<Vec<char>>) -> Seq<Seq<char>> {
    v.map_values(|l: Vec<char>| l@)
}

fn slice_chars(s: &Vec<char>, from: usize, to: usize) -> (r: Vec<char>)
    requires
        from <= to <= s.len(),
    ensures
        r@ == s@.subrange(from as int, to as int),
{
    let mut r: Vec<char> = Vec::new();
    let mut k: usize = from;
    while k < to
        invariant
            from <= k <= to <= s.len(),
            r@ == s@.subrange(from as int, k as int),
        decreases to - k,
    {
        r.push(s[k]);
        assert(s@.subrange(from as int, k + 1) =~= s@.subrange(from as int, k as int).push(s@[k as int]));
        k = k + 1;
    }
    r
}

/// Splits `s` into its lines, as `str::lines` does.
pub fn split_lines(s: &Vec<char>) -> (r: Vec<Vec<char>>)
    ensures
        views_of(r@) == lines_of(s@),
{
    let mut out: Vec<Vec<char>> = Vec::new();
    let mut start: usize = 0;
    let mut i: usize = 0;
    while i < s.len()
        invariant
            start <= i <= s.len(),
            views_of(out@) + lines_from(s@, start as int, i as int) == lines_of(s@),
        decreases s.len() - i,
    {
        if s[i] == '\n' {
            let mut line = slice_chars(s, start, i);
            if line.len() > 0 && line[line.len() - 1] == '\r' {
                line.pop();
            }
            proof {
                assert(line@ == strip_cr(s@.subrange(start as int, i as int)));
            }
            let ghost before = views_of(out@);
            out.push(line);
            assert(views_of(out@) =~= before.push(line@));
            assert(views_of(out@) + lines_from(s@, (i + 1) as int, (i + 1) as int) =~= before + (
            seq![line@] + lines_from(s@, (i + 1) as int, (i + 1) as int)));
            start = i + 1;
        }
        i = i + 1;
    }
    if start < s.len() {
        let line = slice_chars(s, start, s.len());
        let ghost before = views_of(out@);
        out.push(line);
        assert(views_of(out@) =~= before.push(line@));
        assert(views_of(out@) =~= before + lines_from(s@, start as int, i as int));
    } else {
        assert(views_of(out@) =~= views_of(out@) + lines_from(s@, start as int, i as int));
    }
    out
}

/// Joins `ls` with `sep` between each two pieces.
pub fn join_chars(ls: &Vec<Vec<char>>, from: usize, to: usize, sep: &Vec<char>) -> (r: Vec<char>)
    requires
        from <= to <= ls.len(),
    ensures
        r@ == join_with(views_of(ls@).subrange(from as int, to as int), sep@),
{
    let mut r: Vec<char> = Vec::new();
    let mut k: usize = from;
    while k < to
        invariant
            from <= k <= to <= ls.len(),
            r@ == join_with(views_of(ls@).subrange(from as int, k as int), sep@),
        decreases to - k,
    {
        let ghost prev = views_of(ls@).subrange(from as int, k as int);
        let ghost next = views_of(ls@).subrange(from as int, k + 1);
        assert(next.drop_last() =~= prev);
        if k > from {
            r.extend_from_slice(sep.as_slice());
        }
        r.extend_from_slice(ls[k].as_slice());
        assert(r@ =~= join_with(next, sep@));
        k = k + 1;
    }
    r
}


pub open spec fn strings_view(v: Seq<String>) -> Seq<Seq<char>> {
    v.map_values(|t: String| t@)
}

/// Joins `v` with `sep` between each two strings, as `[String]::join` does.
pub fn join_strings(v: &Vec<String>, sep: &str) -> (r: String)
    ensures
        r@ == join_with(strings_view(v@), sep@),
{
    let mut r = String::new();
    let mut k: usize = 0;
    while k < v.len()
        invariant
            k <= v.len(),
            r@ == join_with(strings_view(v@).subrange(0, k as int), sep@),
        decreases v.len() - k,
    {
        let ghost next = strings_view(v@).subrange(0, k + 1);
        assert(next.drop_last() =~= strings_view(v@).subrange(0, k as int));
        if k > 0 {
            r.append(sep);
        }
        r.append(v[k].as_str());
        assert(r@ =~= join_with(next, sep@));
        k = k + 1;
    }
    assert(strings_view(v@).subrange(0, v.len() as int) =~= strings_view(v@));
    r
}

pub open spec fn digit_char(d: int) -> char {
    if d == 0 { '0' } else if d == 1 { '1' } else if d == 2 { '2' } else if d == 3 { '3' }
    else if d == 4 { '4' } else if d == 5 { '5' } else if d == 6 { '6' } else if d == 7 { '7' }
    else if d == 8 { '8' } else { '9' }
}

/// The decimal digits of `n`, most significant first, without leading zeros.
pub open spec fn decimal_digits(n: nat) -> Seq<char>
    decreases n,
{
    if n < 10 {
        seq![digit_char(n as int)]
    } else {
        decimal_digits(n / 10) + seq![digit_char((n % 10) as int)]
    }
}

/// The decimal text of `n`, with a leading `-` when negative, as `Display` gives it.
pub open spec fn decimal_of(n: int) -> Seq<char> {
    if n < 0 {
        seq!['-'] + decimal_digits((-n) as nat)
    } else {
        decimal_digits(n as nat)
    }
}

fn digit_of(d: u64) -> (c: char)
    requires
        d < 10,
    ensures
        c == digit_char(d as int),
{
    if d == 0 { '0' } else if d == 1 { '1' } else if d == 2 { '2' } else if d == 3 { '3' }
    else if d == 4 { '4' } else if d == 5 { '5' } else if d == 6 { '6' } else if d == 7 { '7' }
    else if d == 8 { '8' } else { '9' }
}

fn digits_u64(n: u64) -> (r: Vec<char>)
    ensures
        r@ == decimal_digits(n as nat),
    decreases n,
{
    if n < 10 {
        let mut v: Vec<char> = Vec::new();
        v.push(digit_of(n));
        assert(v@ =~= decimal_digits(n as nat));
        v
    } else {
        let mut v = digits_u64(n / 10);
        v.push(digit_of(n % 10));
        assert(v@ =~= decimal_digits(n as nat));
        v
    }
}

/// The decimal text of `n`.
pub fn decimal_text(n: i64) -> (r: String)
    ensures
        r@ == decimal_of(n as int),
{
    if n < 0 {
        let m: u64 = if n == i64::MIN { 9223372036854775808u64 } else { (-n) as u64 };
        let mut v: Vec<char> = vec!['-'];
        let d = digits_u64(m);
        let mut k: usize = 0;
        while k < d.len()
            invariant
                k <= d.len(),
                v@ == seq!['-'] + d@.subrange(0, k as int),
            decreases d.len() - k,
        {
            v.push(d[k]);
            assert(d@.subrange(0, k + 1) =~= d@.subrange(0, k as int).push(d@[k as int]));
            k = k + 1;
        }
        assert(d@.subrange(0, d.len() as int) =~= d@);
        string_of(&v)
    } else {
        string_of(&digits_u64(n as u64))
    }
}

/// Whether `q` stands in `f` at position `i`.
pub fn equal_at(f: &Vec<char>, i: usize, q: &Vec<char>) -> (r: bool)
    requires
        i + q.len() <= f.len(),
    ensures
        r == (f@.subrange(i as int, i + q.len()) == q@),
{
    let m = q.len();
    let mut k: usize = 0;
    while k < m
        invariant
            m == q.len(),
            i + m <= f.len(),
            k <= m,
            forall|t: int| 0 <= t < k ==> f@[i + t] == q@[t],
        decreases m - k,
    {
        if f[i + k] != q[k] {
            assert(f@.subrange(i as int, i + m)[k as int] != q@[k as int]);
            return false;
        }
        k = k + 1;
    }
    assert(f@.subrange(i as int, i + m) =~= q@);
    true
}

/// Index of the first occurrence of `pat` in `s` at or after `i`, or `-1`.
pub open spec fn find_from(s: Seq<char>, pat: Seq<char>, i: int) -> int
    decreases s.len() + 1 - i,
{
    if i < 0 || i + pat.len() > s.len() {
        -1
    } else if s.subrange(i, i + pat.len()) == pat {
        i
    } else {
        find_from(s, pat, i + 1)
    }
}

pub proof fn lemma_find_from_range(s: Seq<char>, pat: Seq<char>, i: int)
    ensures
        find_from(s, pat, i) == -1 || (0 <= i <= find_from(s, pat, i) && find_from(s, pat, i)
            + pat.len() <= s.len() && s.subrange(find_from(s, pat, i), find_from(s, pat, i)
            + pat.len()) == pat),
    decreases s.len() + 1 - i,
{
    if !(i < 0 || i + pat.len() > s.len()) && s.subrange(i, i + pat.len()) != pat {
        lemma_find_from_range(s, pat, i + 1);
    }
}

/// The first occurrence of `pat` in `s` at or after `i`.
pub fn find_chars(s: &Vec<char>, pat: &Vec<char>, i: usize) -> (r: Option<usize>)
    ensures
        r is None ==> find_from(s@, pat@, i as int) == -1,
        r matches Some(k) ==> find_from(s@, pat@, i as int) == k && i <= k && k + pat.len() <= s.len(),
{
    if pat.len() > s.len() {
        return None;
    }
    let last = s.len() - pat.len();
    let mut j: usize = i;
    while j <= last
        invariant
            last + pat.len() == s.len(),
            i <= j,
            find_from(s@, pat@, j as int) == find_from(s@, pat@, i as int),
        decreases last + 1 - j,
    {
        if equal_at(s, j, pat) {
            return Some(j);
        }
        if j == last {
            assert(find_from(s@, pat@, j + 1) == -1);
            return None;
        }
        j = j + 1;
    }
    None
}

} // verus!
