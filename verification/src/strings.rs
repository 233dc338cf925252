//! Text helpers shared by the web server: splitting, prefixes, decimal numbers and the
//! conversions between text and UTF-8 bytes.
use crate::compiler::text::{find_first, lemma_find_first, lemma_find_first_at};
use vstd::prelude::*;
use vstd::utf8::{encode_utf8, valid_utf8};

verus! {

/// `String::push`: appends the character `c`.
#[verifier::external_body]
pub(crate) fn push_char(s: &mut String, c: char)
    ensures
        final(s)@ == old(s)@.push(c),
{
    s.push(c);
}

/// `String::from_utf8`: the text whose UTF-8 encoding is `bytes`, or `None` where `bytes` is
/// not valid UTF-8.
#[verifier::external_body]
pub(crate) fn string_from_utf8(bytes: Vec<u8>) -> (r: Option<String>)
    ensures
        r is Some <==> valid_utf8(bytes@),
        r matches Some(s) ==> encode_utf8(s@) == bytes@,
{
    String::from_utf8(bytes).ok()
}

/// The text that `String::from_utf8_lossy` makes of some bytes.
pub uninterp spec fn lossy_text(bytes: Seq<u8>) -> Seq<char>;

/// `String::from_utf8_lossy`: the text of `bytes`, with each invalid sequence of bytes replaced
/// by U+FFFD. Where `bytes` is valid UTF-8 it is the text that they encode; how invalid bytes
/// are grouped into replacements is left to the name.
#[verifier::external_body]
pub(crate) fn lossy_string(bytes: &[u8]) -> (r: String)
    ensures
        r@ == lossy_text(bytes@),
        valid_utf8(bytes@) ==> encode_utf8(r@) == bytes@,
{
    String::from_utf8_lossy(bytes).to_string()
}

/// The string whose characters are `chars`.
pub fn string_of(chars: &[char]) -> (r: String)
    ensures
        r@ == chars@,
{
    let mut r = String::new();
    let mut i: usize = 0;
    while i < chars.len()
        invariant
            i <= chars@.len(),
            r@ == chars@.take(i as int),
        decreases chars.len() - i,
    {
        push_char(&mut r, chars[i]);
        assert(chars@.take(i as int + 1) =~= chars@.take(i as int).push(chars@[i as int]));
        i = i + 1;
    }
    assert(chars@.take(chars@.len() as int) =~= chars@);
    r
}

/// The pieces of `s` between occurrences of `c`, in order; there is always at least one.
pub open spec fn split_all(s: Seq<char>, c: char) -> Seq<Seq<char>>
    decreases s.len(),
{
    match find_first(s, c) {
        Some(k) => {
            if 0 <= k < s.len() {
                seq![s.take(k)] + split_all(s.skip(k + 1), c)
            } else {
                seq![s]
            }
        },
        None => seq![s],
    }
}

/// Splits `s` at every occurrence of `c`.
pub fn split(s: &str, c: char) -> (r: Vec<String>)
    ensures
        r@.map_values(|p: String| p@) == split_all(s@, c),
{
    let n = s.unicode_len();
    let mut pieces: Vec<String> = Vec::new();
    let mut start: usize = 0;
    let mut i: usize = 0;
    assert(s@.skip(0) =~= s@);
    assert(pieces@.map_values(|p: String| p@) + split_all(s@, c) =~= split_all(s@, c));
    while i < n
        invariant
            n == s@.len(),
            start <= i <= n,
            forall|j: int| start <= j < i ==> s@[j] != c,
            pieces@.map_values(|p: String| p@) + split_all(s@.skip(start as int), c) == split_all(
                s@,
                c,
            ),
        decreases n - i,
    {
        if s.get_char(i) == c {
            let piece = s.substring_char(start, i);
            let ghost rest = s@.skip(start as int);
            proof {
                lemma_find_first_at(rest, c, i - start);
                assert(rest.take(i - start) =~= piece@);
                assert(rest.skip(i - start + 1) =~= s@.skip(i as int + 1));
            }
            let ghost before = pieces@.map_values(|p: String| p@);
            pieces.push(piece.to_owned());
            assert(pieces@.map_values(|p: String| p@) =~= before.push(piece@));
            start = i + 1;
        }
        i = i + 1;
    }
    let last = s.substring_char(start, n);
    proof {
        let rest = s@.skip(start as int);
        lemma_find_first_at(rest, c, n - start);
        assert(rest =~= last@);
    }
    let ghost before = pieces@.map_values(|p: String| p@);
    pieces.push(last.to_owned());
    assert(pieces@.map_values(|p: String| p@) =~= before.push(last@));
    pieces
}

/// Whether `c` occurs in `s`.
pub fn contains_char(s: &str, c: char) -> (r: bool)
    ensures
        r == s@.contains(c),
{
    let n = s.unicode_len();
    let mut i: usize = 0;
    while i < n
        invariant
            n == s@.len(),
            i <= n,
            forall|j: int| 0 <= j < i ==> s@[j] != c,
        decreases n - i,
    {
        if s.get_char(i) == c {
            assert(s@[i as int] == c);
            return true;
        }
        i = i + 1;
    }
    false
}

/// `s` without `prefix`, where `s` starts with `prefix`.
pub fn strip_prefix<'a>(s: &'a str, prefix: &str) -> (r: Option<&'a str>)
    ensures
        r is Some <==> prefix@.is_prefix_of(s@),
        r matches Some(rest) ==> rest@ == s@.skip(prefix@.len() as int),
{
    let n = s.unicode_len();
    let m = prefix.unicode_len();
    if m > n {
        return None;
    }
    let mut i: usize = 0;
    while i < m
        invariant
            m == prefix@.len(),
            n == s@.len(),
            m <= n,
            i <= m,
            forall|j: int| 0 <= j < i ==> s@[j] == prefix@[j],
        decreases m - i,
    {
        if s.get_char(i) != prefix.get_char(i) {
            return None;
        }
        i = i + 1;
    }
    assert(s@.subrange(0, m as int) =~= prefix@);
    let rest = s.substring_char(m, n);
    assert(rest@ =~= s@.skip(m as int));
    Some(rest)
}

/// The decimal digits of `n`, most significant first, without leading zeros.
pub open spec fn decimal_digits(n: nat) -> Seq<char>
    decreases n,
{
    if n < 10 {
        seq![(48 + n) as char]
    } else {
        decimal_digits(n / 10).push((48 + n % 10) as char)
    }
}

/// The decimal representation of `n`.
pub fn decimal(n: usize) -> (r: String)
    ensures
        r@ == decimal_digits(n as nat),
    decreases n,
{
    if n < 10 {
        let mut r = String::new();
        push_char(&mut r, (48 + n) as u8 as char);
        r
    } else {
        let mut r = decimal(n / 10);
        push_char(&mut r, (48 + n % 10) as u8 as char);
        r
    }
}

} // verus!
