//! Content-derived file names for the stylesheet.

use vstd::prelude::*;
use crate::text::string_of;

verus! {

/// What `sha2::Sha256` gives for a byte string: a function of the bytes alone.
pub uninterp spec fn sha256_of(b: Seq<u8>) -> Seq<u8>;

/// Relies on `sha2::Digest::digest` for `sha2::Sha256`: the SHA-256 digest of
/// `bytes`, which is 32 bytes long.
#[verifier::external_body]
fn sha256(bytes: &[u8]) -> (r: Vec<u8>)
    ensures
        r@ == sha256_of(bytes@),
        r@.len() == 32,
{
    <sha2::Sha256 as sha2::Digest>::digest(bytes).to_vec()
}

/// The lowercase hexadecimal digit of `d`.
pub open spec fn hex_digit(d: int) -> char {
    if d < 10 {
        ((d + 48) as u8) as char
    } else {
        ((d + 87) as u8) as char
    }
}

/// Two lowercase hexadecimal digits for each byte, in order.
pub open spec fn hex_of(b: Seq<u8>) -> Seq<char>
    decreases b.len(),
{
    if b.len() == 0 {
        seq![]
    } else {
        hex_of(b.drop_last()) + seq![hex_digit(b.last() as int / 16), hex_digit(b.last() as int % 16)]
    }
}

/// `style.<first eight hex digits of the digest>.css`.
pub open spec fn css_name_of_digest(digest: Seq<u8>) -> Seq<char> {
    "style."@ + hex_of(digest.subrange(0, 4)) + ".css"@
}

fn hex_char(d: u8) -> (c: char)
    requires
        d < 16,
    ensures
        c == hex_digit(d as int),
{
    if d < 10 {
        (d + 48) as char
    } else {
        (d + 87) as char
    }
}

/// The lowercase hexadecimal text of `b`.
pub fn hex_text(b: &[u8]) -> (r: String)
    ensures
        r@ == hex_of(b@),
{
    let mut v: Vec<char> = Vec::new();
    let mut k: usize = 0;
    while k < b.len()
        invariant
            k <= b@.len(),
            v@ == hex_of(b@.subrange(0, k as int)),
        decreases b@.len() - k,
    {
        assert(b@.subrange(0, k + 1).drop_last() =~= b@.subrange(0, k as int));
        v.push(hex_char(b[k] / 16));
        v.push(hex_char(b[k] % 16));
        k = k + 1;
    }
    assert(b@.subrange(0, b@.len() as int) =~= b@);
    string_of(&v)
}

/// The stylesheet's file name for a digest of its content.
pub fn css_filename_from_digest(digest: &[u8]) -> (r: String)
    requires
        digest@.len() >= 4,
    ensures
        r@ == css_name_of_digest(digest@),
{
    let mut head: Vec<u8> = Vec::new();
    let mut k: usize = 0;
    while k < 4
        invariant
            k <= 4 <= digest@.len(),
            head@ == digest@.subrange(0, k as int),
        decreases 4 - k,
    {
        head.push(digest[k]);
        assert(digest@.subrange(0, k + 1) =~= digest@.subrange(0, k as int).push(digest@[k as int]));
        k = k + 1;
    }
    let mut r = String::from_str("style.");
    let h = hex_text(head.as_slice());
    r.append(h.as_str());
    r.append(".css");
    r
}

/// The stylesheet's file name: `style.<first eight hex digits of its
/// SHA-256 digest>.css`.
pub fn css_filename_with_hash(css: &[u8]) -> (r: String)
    ensures
        r@ == css_name_of_digest(sha256_of(css@)),
        sha256_of(css@).len() == 32,
        r@.len() == 18,
        forall|k: int| 6 <= k < 14 ==> is_hex_char(#[trigger] r@[k]),
{
    let d = sha256(css);
    let r = css_filename_from_digest(d.as_slice());
    proof {
        lemma_css_name_shape(d@);
    }
    r
}

/// A lowercase hexadecimal digit.
pub open spec fn is_hex_char(c: char) -> bool {
    ('0' <= c && c <= '9') || ('a' <= c && c <= 'f')
}

proof fn lemma_hex_of_shape(b: Seq<u8>)
    ensures
        hex_of(b).len() == 2 * b.len(),
        forall|k: int| 0 <= k < hex_of(b).len() ==> is_hex_char(#[trigger] hex_of(b)[k]),
    decreases b.len(),
{
    if b.len() > 0 {
        lemma_hex_of_shape(b.drop_last());
        let d1 = b.last() as int / 16;
        let d2 = b.last() as int % 16;
        assert(is_hex_char(hex_digit(d1)));
        assert(is_hex_char(hex_digit(d2)));
        let prev = hex_of(b.drop_last());
        assert forall|k: int| 0 <= k < hex_of(b).len() implies is_hex_char(#[trigger] hex_of(b)[k]) by {
            if k < prev.len() {
                assert(hex_of(b)[k] == prev[k]);
            }
        }
    }
}

/// The file name for a digest of at least four bytes: `style.`, eight
/// hexadecimal digits, `.css`.
proof fn lemma_css_name_shape(digest: Seq<u8>)
    requires
        digest.len() >= 4,
    ensures
        css_name_of_digest(digest).len() == 18,
        forall|k: int| 6 <= k < 14 ==> is_hex_char(#[trigger] css_name_of_digest(digest)[k]),
{
    reveal_strlit("style.");
    reveal_strlit(".css");
    let h = hex_of(digest.subrange(0, 4));
    lemma_hex_of_shape(digest.subrange(0, 4));
    assert(("style."@).len() == 6);
    assert((".css"@).len() == 4);
    assert(h.len() == 8);
    assert(css_name_of_digest(digest) == "style."@ + h + ".css"@);
    assert(css_name_of_digest(digest).len() == 6 + 8 + 4);
    assert forall|k: int| 6 <= k < 14 implies is_hex_char(#[trigger] css_name_of_digest(digest)[k]) by {
        assert(css_name_of_digest(digest)[k] == h[k - 6]);
    }
}

/// Identical stylesheets get identical file names.
pub proof fn lemma_same_css_same_name(a: Seq<u8>, b: Seq<u8>)
    requires
        a == b,
    ensures
        css_name_of_digest(sha256_of(a)) == css_name_of_digest(sha256_of(b)),
{
}

} // verus!
