//! Helpers on sequences of characters used by the scanner, the number parser and the web
//! server.
use vstd::prelude::*;

verus! {

/// The index of the first occurrence of `c` in `s`, if there is one.
pub open spec fn find_first<T>(s: Seq<T>, c: T) -> Option<int>
    decreases s.len(),
{
    if s.len() == 0 {
        None
    } else if s[0] == c {
        Some(0)
    } else {
        match find_first(s.drop_first(), c) {
            Some(i) => Some(i + 1),
            None => None,
        }
    }
}

/// `find_first` finds `k` exactly when `s[k] == c` and no earlier character is `c`;
/// it finds nothing exactly when `c` does not occur in `s`.
pub proof fn lemma_find_first<T>(s: Seq<T>, c: T)
    ensures
        find_first(s, c) matches Some(k) ==> 0 <= k < s.len() && s[k] == c && forall|j: int|
            0 <= j < k ==> s[j] != c,
        find_first(s, c) is None ==> forall|j: int| 0 <= j < s.len() ==> s[j] != c,
    decreases s.len(),
{
    if s.len() > 0 {
        lemma_find_first(s.drop_first(), c);
        if s[0] != c {
            assert forall|j: int| 1 <= j < s.len() implies s[j] == s.drop_first()[j - 1] by {}
        }
    }
}

/// If `s[k] == c` and no earlier character is `c`, `find_first` finds `k`.
pub proof fn lemma_find_first_at<T>(s: Seq<T>, c: T, k: int)
    requires
        0 <= k <= s.len(),
        k < s.len() ==> s[k] == c,
        forall|j: int| 0 <= j < k ==> s[j] != c,
    ensures
        k < s.len() ==> find_first(s, c) == Some(k),
        k == s.len() ==> find_first(s, c) is None,
{
    lemma_find_first(s, c);
}

/// Splits `s` around the first occurrence of `c`, dropping that occurrence.
pub open spec fn split_at_first(s: Seq<char>, c: char) -> Option<(Seq<char>, Seq<char>)> {
    match find_first(s, c) {
        Some(k) => Some((s.take(k), s.skip(k + 1))),
        None => None,
    }
}

/// The characters of `s`, in order.
pub fn chars_of(s: &str) -> (v: Vec<char>)
    ensures
        v@ == s@,
{
    let n = s.unicode_len();
    let mut v: Vec<char> = Vec::new();
    let mut i: usize = 0;
    while i < n
        invariant
            n == s@.len(),
            i <= n,
            v@ == s@.take(i as int),
        decreases n - i,
    {
        let c = s.get_char(i);
        v.push(c);
        assert(s@.take(i as int + 1) =~= s@.take(i as int).push(c));
        i = i + 1;
    }
    assert(s@.take(n as int) =~= s@);
    v
}

/// The first index at or after `from` and before `to` whose character is `c`, or `to`.
pub fn index_of(chars: &Vec<char>, c: char, from: usize, to: usize) -> (k: usize)
    requires
        from <= to <= chars.len(),
    ensures
        from <= k <= to,
        k < to ==> chars@[k as int] == c,
        forall|j: int| from <= j < k ==> chars@[j] != c,
{
    let mut k = from;
    while k < to
        invariant
            from <= k <= to <= chars.len(),
            forall|j: int| from <= j < k ==> chars@[j] != c,
        decreases to - k,
    {
        if chars[k] == c {
            return k;
        }
        k = k + 1;
    }
    k
}

} // verus!
