//! Blank space in Tortuga only separates tokens: replacing it with other blank space leaves
//! the tokens of a text as they were.
use crate::compiler::number::spec_digit_value;
use crate::compiler::scanner::{
    comment_end, digit_of, invalid_continue, lemma_run_end_bounds, lemma_scan_at_advances,
    lemma_trivia_end_bounds, run_end, scan_at, scan_outcomes, trivia_end,
};
use crate::compiler::unicode::spec_is_pattern_white_space;
use crate::compiler::xid::unicode_xid_continue;
use vstd::prelude::*;

verus! {

/// At index `j`, the text `t` holds blank space in place of the blank space of `s` that a
/// scanner reads the same way: blank space that continues no identifier, and, after a `;`
/// (where a comment may run), no line feed on either side.
pub open spec fn replaceable(s: Seq<char>, t: Seq<char>, j: int) -> bool {
    &&& spec_is_pattern_white_space(s[j])
    &&& spec_is_pattern_white_space(t[j])
    &&& !unicode_xid_continue(s[j])
    &&& !unicode_xid_continue(t[j])
    &&& (s[j] != '\n' && t[j] != '\n') || (forall|k: int| 0 <= k < j ==> s[k] != ';')
}

/// `t` is `s` with some of its blank space replaced by other blank space, as
/// [`replaceable`] allows.
pub open spec fn blank_space_replaced(s: Seq<char>, t: Seq<char>) -> bool {
    &&& s.len() == t.len()
    &&& forall|j: int| 0 <= j < s.len() ==> s[j] == t[j] || #[trigger] replaceable(s, t, j)
}

proof fn lemma_same_or_blank(s: Seq<char>, t: Seq<char>, j: int)
    requires
        blank_space_replaced(s, t),
        0 <= j < s.len(),
    ensures
        s[j] == t[j] || replaceable(s, t, j),
        !spec_is_pattern_white_space(s[j]) ==> s[j] == t[j],
{
    assert(s[j] == t[j] || replaceable(s, t, j));
}

/// Every character of a run satisfies the run's predicate.
proof fn lemma_run_end_holds(s: Seq<char>, i: int, p: spec_fn(char) -> bool)
    requires
        0 <= i <= s.len(),
    ensures
        forall|j: int| i <= j < run_end(s, i, p) ==> p(s[j]),
    decreases s.len() - i,
{
    if i < s.len() && p(s[i]) {
        lemma_run_end_holds(s, i + 1, p);
    }
}

/// A run ends at the same index in two texts of one length when, up to and including its
/// end, the characters where they differ answer the predicate the same way.
proof fn lemma_run_end_same(s: Seq<char>, t: Seq<char>, i: int, p: spec_fn(char) -> bool)
    requires
        s.len() == t.len(),
        0 <= i <= s.len(),
        forall|j: int|
            i <= j <= run_end(s, i, p) && j < s.len() && s[j] != t[j] ==> p(s[j]) == p(t[j]),
    ensures
        run_end(s, i, p) == run_end(t, i, p),
    decreases s.len() - i,
{
    lemma_run_end_bounds(s, i, p);
    if i < s.len() {
        assert(p(s[i]) == p(t[i]));
        if p(s[i]) {
            lemma_run_end_same(s, t, i + 1, p);
        }
    }
}

/// A run of characters that blank space never continues ends at the same index in both
/// texts, and the texts agree on every character of it.
proof fn lemma_run_replaced(s: Seq<char>, t: Seq<char>, i: int, p: spec_fn(char) -> bool)
    requires
        blank_space_replaced(s, t),
        0 <= i <= s.len(),
        forall|c: char| spec_is_pattern_white_space(c) && !unicode_xid_continue(c) ==> !p(c),
    ensures
        run_end(s, i, p) == run_end(t, i, p),
        i <= run_end(s, i, p) <= s.len(),
        forall|j: int| i <= j < run_end(s, i, p) ==> s[j] == t[j],
{
    lemma_run_end_bounds(s, i, p);
    lemma_run_end_holds(s, i, p);
    assert forall|j: int|
        i <= j <= run_end(s, i, p) && j < s.len() && s[j] != t[j] implies p(s[j]) == p(t[j]) by {
        lemma_same_or_blank(s, t, j);
    }
    lemma_run_end_same(s, t, i, p);
    assert forall|j: int| i <= j < run_end(s, i, p) implies s[j] == t[j] by {
        lemma_same_or_blank(s, t, j);
    }
}

/// Blank space is no digit, whatever the radix up to 36.
proof fn lemma_blank_is_no_digit(radix: nat)
    requires
        radix <= 36,
    ensures
        forall|c: char| spec_is_pattern_white_space(c) ==> !(#[trigger] digit_of(radix)(c)),
{
    assert forall|c: char| spec_is_pattern_white_space(c) implies !(#[trigger] digit_of(radix)(c)) by {
        assert(spec_digit_value(c) == 36);
    }
}

/// Skipping blank space and comments from `i` stops at the same index in both texts.
pub proof fn lemma_trivia_end_replaced(s: Seq<char>, t: Seq<char>, i: int)
    requires
        blank_space_replaced(s, t),
        0 <= i <= s.len(),
    ensures
        trivia_end(s, i) == trivia_end(t, i),
    decreases s.len() - i,
{
    if i < s.len() {
        lemma_same_or_blank(s, t, i);
        if spec_is_pattern_white_space(s[i]) {
            lemma_trivia_end_replaced(s, t, i + 1);
        } else if s[i] == ';' {
            let p = |c: char| c != '\n';
            lemma_run_end_bounds(s, i + 1, p);
            assert forall|j: int|
                i + 1 <= j <= run_end(s, i + 1, p) && j < s.len() && s[j] != t[j] implies p(s[j])
                == p(t[j]) by {
                lemma_same_or_blank(s, t, j);
                assert(s[i] == ';');
            }
            lemma_run_end_same(s, t, i + 1, p);
            assert(comment_end(s, i + 1) == comment_end(t, i + 1));
            lemma_trivia_end_replaced(s, t, comment_end(s, i + 1));
        }
    }
}

/// The token that starts at `i` (where no blank space stands) is scanned the same way from
/// both texts, and the texts agree on every character of its lexeme.
pub proof fn lemma_scan_at_replaced(s: Seq<char>, t: Seq<char>, i: int)
    requires
        blank_space_replaced(s, t),
        0 <= i < s.len(),
        !spec_is_pattern_white_space(s[i]),
    ensures
        scan_at(s, i) == scan_at(t, i),
        forall|j: int| i <= j < scan_at(s, i).0 ==> s[j] == t[j],
{
    lemma_same_or_blank(s, t, i);
    lemma_scan_at_advances(s, i);
    if i + 1 < s.len() {
        lemma_same_or_blank(s, t, i + 1);
    }
    lemma_blank_is_no_digit(10);
    lemma_blank_is_no_digit(36);
    let xc = |d: char| unicode_xid_continue(d);
    let ic = |d: char| invalid_continue(d);
    lemma_run_replaced(s, t, i + 1, digit_of(10));
    lemma_run_replaced(s, t, i + 1, xc);
    lemma_run_replaced(s, t, i + 1, ic);
    let a = run_end(s, i + 1, digit_of(10));
    if a < s.len() {
        lemma_same_or_blank(s, t, a);
    }
    if a < s.len() && s[a] == '#' {
        lemma_run_replaced(s, t, a + 1, digit_of(36));
        let b = run_end(s, a + 1, digit_of(36));
        if b < s.len() {
            lemma_same_or_blank(s, t, b);
        }
        if b < s.len() && s[b] == '.' {
            lemma_run_replaced(s, t, b + 1, digit_of(36));
            let e = run_end(s, b + 1, digit_of(36));
            assert(s.subrange(i, e) =~= t.subrange(i, e));
        } else {
            assert(s.subrange(i, b) =~= t.subrange(i, b));
        }
        assert(s.subrange(i, a) =~= t.subrange(i, a));
    } else if a < s.len() && s[a] == '.' {
        lemma_run_replaced(s, t, a + 1, digit_of(10));
        let e = run_end(s, a + 1, digit_of(10));
        assert(s.subrange(i, e) =~= t.subrange(i, e));
    } else {
        assert(s.subrange(i, a) =~= t.subrange(i, a));
    }
}

/// The tokens scanned from `i` on are the same in both texts, and the texts agree on each
/// token's lexeme.
pub proof fn lemma_scan_outcomes_replaced(s: Seq<char>, t: Seq<char>, i: int)
    requires
        blank_space_replaced(s, t),
        0 <= i <= s.len(),
    ensures
        scan_outcomes(s, i) == scan_outcomes(t, i),
        forall|k: int|
            0 <= k < scan_outcomes(s, i).len() ==> s.subrange(
                (#[trigger] scan_outcomes(s, i)[k]).0,
                scan_outcomes(s, i)[k].1,
            ) == t.subrange(scan_outcomes(s, i)[k].0, scan_outcomes(s, i)[k].1),
    decreases s.len() - i,
{
    lemma_trivia_end_replaced(s, t, i);
    lemma_trivia_end_bounds(s, i);
    let te = trivia_end(s, i);
    if te < s.len() {
        lemma_scan_at_replaced(s, t, te);
        lemma_scan_at_advances(s, te);
        let end = scan_at(s, te).0;
        lemma_scan_outcomes_replaced(s, t, end);
        assert(s.subrange(te, end) =~= t.subrange(te, end));
        let all = scan_outcomes(s, i);
        let rest = scan_outcomes(s, end);
        assert(all == seq![(te, end, scan_at(s, te).1)] + rest);
        assert forall|k: int| 0 <= k < all.len() implies s.subrange(
            (#[trigger] all[k]).0,
            all[k].1,
        ) == t.subrange(all[k].0, all[k].1) by {
            if k > 0 {
                assert(all[k] == rest[k - 1]);
            }
        }
    }
}

} // verus!
