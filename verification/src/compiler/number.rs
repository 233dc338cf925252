//! Parses a number lexeme into its exact runtime value, and validates the lexical structure
//! of a number.
//!
//! Numbers in Tortuga cannot have leading 0s in the radix or integer portion,
//! and cannot have trailing 0s in the fraction portion.
//! Also, the radix for a number cannot be more than 2 digits.
use crate::compiler::errors::ParseNumberError;
use crate::compiler::text::{chars_of, find_first, index_of, lemma_find_first_at, split_at_first};
use crate::compiler::unicode::{
    is_ascii_alphanumeric, spec_is_ascii_alphanumeric, spec_is_ascii_digit,
};
use vstd::prelude::*;

verus! {

/// The largest radix a number may be written in.
pub const MAX_RADIX: u32 = 36;

/// The radix of a number written without one.
pub const DECIMAL: u32 = 10;

/// The value of an ASCII digit or letter as a digit: `0`-`9` are 0 to 9, and the letters
/// (of either case) are 10 to 35. Any other character gets 36, a digit in no radix.
pub open spec fn spec_digit_value(c: char) -> nat {
    if '0' <= c && c <= '9' {
        (c as int - '0' as int) as nat
    } else if 'a' <= c && c <= 'z' {
        (c as int - 'a' as int + 10) as nat
    } else if 'A' <= c && c <= 'Z' {
        (c as int - 'A' as int + 10) as nat
    } else {
        36
    }
}

/// Digits are valued in the order `0`-`9`, then the letters `a`-`z`: consecutive digits have
/// consecutive values, `a` comes right after `9`, and a letter has the same value in either case.
pub proof fn lemma_digit_values(c: char)
    ensures
        ('0' <= c < '9' || 'a' <= c < 'z' || 'A' <= c < 'Z') ==> spec_digit_value(
            ((c as u32) + 1) as char,
        ) == spec_digit_value(c) + 1,
        spec_digit_value('a') == spec_digit_value('9') + 1,
        spec_digit_value('0') == 0,
        'a' <= c <= 'z' ==> spec_digit_value(c) == spec_digit_value(((c as u32) - 32) as char),
{
}

/// The value of `c` as a digit; see [`spec_digit_value`].
pub fn digit_value(c: char) -> (d: u32)
    ensures
        d == spec_digit_value(c),
{
    if '0' <= c && c <= '9' {
        (c as u32) - ('0' as u32)
    } else if 'a' <= c && c <= 'z' {
        (c as u32) - ('a' as u32) + 10
    } else if 'A' <= c && c <= 'Z' {
        (c as u32) - ('A' as u32) + 10
    } else {
        36
    }
}

/// Whether `c` is a digit of the given radix.
pub fn is_digit(c: char, radix: u32) -> (r: bool)
    ensures
        r == (spec_digit_value(c) < radix),
{
    digit_value(c) < radix
}

/// Every character of `s` is a digit of `radix`.
pub open spec fn digits_valid(s: Seq<char>, radix: nat) -> bool {
    forall|i: int| 0 <= i < s.len() ==> spec_digit_value(#[trigger] s[i]) < radix
}

/// The value of the digits `s` read as a natural number in the given radix.
pub open spec fn digits_value(s: Seq<char>, radix: nat) -> nat
    decreases s.len(),
{
    if s.len() == 0 {
        0
    } else {
        digits_value(s.drop_last(), radix) * radix + spec_digit_value(s.last())
    }
}

/// `s`, or the single digit `0` when `s` is empty.
pub open spec fn or_zero(s: Seq<char>) -> Seq<char> {
    if s.len() == 0 {
        seq!['0']
    } else {
        s
    }
}

pub open spec fn is_nonzero_digit(c: char) -> bool {
    '1' <= c && c <= '9'
}

pub open spec fn is_nonzero_alphanumeric(c: char) -> bool {
    spec_is_ascii_alphanumeric(c) && c != '0'
}

pub open spec fn all_alphanumeric(s: Seq<char>) -> bool {
    forall|i: int| 0 <= i < s.len() ==> spec_is_ascii_alphanumeric(#[trigger] s[i])
}

pub open spec fn is_single_zero(s: Seq<char>) -> bool {
    s.len() == 1 && s[0] == '0'
}

/// A radix is one or two decimal digits, the first of which is not 0.
pub open spec fn valid_radix_text(r: Seq<char>) -> bool {
    &&& (r.len() == 1 || r.len() == 2)
    &&& is_nonzero_digit(r[0])
    &&& r.len() == 2 ==> spec_is_ascii_digit(r[1])
}

/// An integer portion is a single 0, or letters and digits that do not start with 0.
pub open spec fn valid_integer_text(i: Seq<char>) -> bool {
    ||| is_single_zero(i)
    ||| (i.len() >= 1 && is_nonzero_alphanumeric(i[0]) && all_alphanumeric(i))
}

/// A fraction portion is a single 0, or letters and digits that do not end with 0;
/// when `may_be_empty` it may also be empty.
pub open spec fn valid_fraction_text(f: Seq<char>, may_be_empty: bool) -> bool {
    ||| (may_be_empty && f.len() == 0)
    ||| is_single_zero(f)
    ||| (f.len() >= 1 && all_alphanumeric(f) && is_nonzero_alphanumeric(f.last()))
}

/// The text of a number split into its radix (if written), integer portion and fraction
/// portion (an absent portion is empty).
pub type NumberText = (Option<Seq<char>>, Seq<char>, Seq<char>);

/// The lexical structure of a number: an optional radix followed by `#`, then either an
/// integer portion with an optional `.` and fraction portion, or an optional `0` followed by
/// `.` and a non-empty fraction portion.
pub open spec fn number_syntax(s: Seq<char>) -> Option<NumberText> {
    let (radix, body) = match split_at_first(s, '#') {
        Some((r, b)) => (Some(r), b),
        None => (None, s),
    };
    let (integer, fraction, has_point) = match split_at_first(body, '.') {
        Some((i, f)) => (i, f, true),
        None => (body, Seq::<char>::empty(), false),
    };
    let radix_ok = match radix {
        Some(r) => valid_radix_text(r),
        None => true,
    };
    let body_ok = if has_point {
        ||| (valid_integer_text(integer) && valid_fraction_text(fraction, true))
        ||| ((integer.len() == 0 || is_single_zero(integer)) && valid_fraction_text(
            fraction,
            false,
        ))
    } else {
        valid_integer_text(integer)
    };
    if radix_ok && body_ok {
        Some((radix, integer, fraction))
    } else {
        None
    }
}

/// The radix a number's text is written in.
pub open spec fn radix_of(t: NumberText) -> nat {
    match t.0 {
        Some(r) => digits_value(r, 10),
        None => 10,
    }
}

/// The text names the radix 1, which no digit fits.
pub open spec fn names_radix_one(s: Seq<char>) -> bool {
    number_syntax(s) matches Some(t) && radix_of(t) == 1
}

/// A portion's digits fit the radix and their value fits in a `u128`.
pub open spec fn portion_ok(s: Seq<char>, radix: nat) -> bool {
    digits_valid(s, radix) && digits_value(s, radix) <= u128::MAX
}

/// The exact value of a number literal: `integer + numerator / radix ^ fraction_digits`.
#[derive(Clone, Copy, Debug, PartialEq, Eq, Structural)]
pub struct Number {
    pub integer: u128,
    pub numerator: u128,
    pub radix: u32,
    pub fraction_digits: usize,
}

/// What parsing the number text `s` gives: [`None`] where it is rejected.
pub open spec fn number_value(s: Seq<char>) -> Option<Number> {
    match number_syntax(s) {
        None => None,
        Some(t) => {
            let radix = radix_of(t);
            let integer = or_zero(t.1);
            let fraction = or_zero(t.2);
            if radix > 36 || !portion_ok(integer, radix) || !portion_ok(fraction, radix) || (
            t.1.len() == 0 && t.2.len() == 0) {
                None
            } else {
                Some(
                    Number {
                        integer: digits_value(integer, radix) as u128,
                        numerator: digits_value(fraction, radix) as u128,
                        radix: radix as u32,
                        fraction_digits: fraction.len() as usize,
                    },
                )
            }
        },
    }
}

/// Reading more digits never makes the value smaller.
pub proof fn lemma_digits_value_prefix(s: Seq<char>, radix: nat, i: int)
    requires
        1 <= radix,
        0 <= i <= s.len(),
    ensures
        digits_value(s.take(i), radix) <= digits_value(s, radix),
    decreases s.len(),
{
    if i < s.len() {
        let p = s.drop_last();
        lemma_digits_value_prefix(p, radix, i);
        assert(p.take(i) =~= s.take(i));
        let v = digits_value(p, radix);
        assert(v * radix >= v) by (nonlinear_arith)
            requires
                radix >= 1,
        ;
    } else {
        assert(s.take(i) =~= s);
    }
}

/// The value of the digits `chars[lo..hi]` in `radix`, or [`None`] when a digit does not fit
/// the radix or the value does not fit in a `u128`.
pub fn parse_digits(chars: &Vec<char>, lo: usize, hi: usize, radix: u32) -> (r: Option<u128>)
    requires
        lo <= hi <= chars.len(),
        2 <= radix <= 36,
    ensures
        r is Some <==> portion_ok(chars@.subrange(lo as int, hi as int), radix as nat),
        r matches Some(v) ==> v == digits_value(chars@.subrange(lo as int, hi as int), radix as nat),
{
    let ghost t = chars@.subrange(lo as int, hi as int);
    let mut value: u128 = 0;
    let mut i: usize = lo;
    assert(t.take(0) =~= Seq::<char>::empty());
    while i < hi
        invariant
            lo <= i <= hi <= chars.len(),
            2 <= radix <= 36,
            t == chars@.subrange(lo as int, hi as int),
            digits_valid(t.take(i - lo), radix as nat),
            value == digits_value(t.take(i - lo), radix as nat),
        decreases hi - i,
    {
        let c = chars[i];
        let d = digit_value(c);
        let ghost k = i - lo;
        assert(t[k] == c);
        assert(t.take(k + 1).drop_last() =~= t.take(k));
        assert(t.take(k + 1).last() == c);
        if d >= radix {
            assert(!digits_valid(t, radix as nat)) by {
                assert(spec_digit_value(t[k]) >= radix);
            }
            return None;
        }
        let next = match value.checked_mul(radix as u128) {
            Some(m) => m.checked_add(d as u128),
            None => None,
        };
        match next {
            Some(v) => {
                value = v;
            },
            None => {
                proof {
                    assert(digits_value(t.take(k + 1), radix as nat) > u128::MAX) by {
                        let w = digits_value(t.take(k), radix as nat);
                        if w * radix <= u128::MAX {
                            assert(w * radix + d > u128::MAX);
                        }
                        assert(w * radix + d >= w * radix);
                    }
                    lemma_digits_value_prefix(t, radix as nat, k + 1);
                }
                return None;
            },
        }
        proof {
            assert forall|j: int| 0 <= j < k + 1 implies spec_digit_value(
                #[trigger] t.take(k + 1)[j],
            ) < radix by {
                if j < k {
                    assert(t.take(k + 1)[j] == t.take(k)[j]);
                }
            }
        }
        i = i + 1;
    }
    assert(t.take(hi - lo) =~= t);
    Some(value)
}

/// Whether every character of `chars[lo..hi]` is an ASCII letter or digit.
fn all_alphanumeric_in(chars: &Vec<char>, lo: usize, hi: usize) -> (r: bool)
    requires
        lo <= hi <= chars.len(),
    ensures
        r == all_alphanumeric(chars@.subrange(lo as int, hi as int)),
{
    let mut i = lo;
    while i < hi
        invariant
            lo <= i <= hi <= chars.len(),
            forall|j: int| lo <= j < i ==> spec_is_ascii_alphanumeric(chars@[j]),
        decreases hi - i,
    {
        if !is_ascii_alphanumeric(chars[i]) {
            assert(chars@.subrange(lo as int, hi as int)[i - lo] == chars@[i as int]);
            return false;
        }
        i = i + 1;
    }
    assert forall|j: int| 0 <= j < hi - lo implies spec_is_ascii_alphanumeric(
        #[trigger] chars@.subrange(lo as int, hi as int)[j],
    ) by {
        assert(chars@.subrange(lo as int, hi as int)[j] == chars@[lo + j]);
    }
    true
}

pub(crate) fn is_valid_radix_text(chars: &Vec<char>, lo: usize, hi: usize) -> (r: bool)
    requires
        lo <= hi <= chars.len(),
    ensures
        r == valid_radix_text(chars@.subrange(lo as int, hi as int)),
{
    let ghost t = chars@.subrange(lo as int, hi as int);
    let n = hi - lo;
    if n != 1 && n != 2 {
        return false;
    }
    assert(t[0] == chars@[lo as int]);
    let first = chars[lo];
    if !('1' <= first && first <= '9') {
        return false;
    }
    if n == 2 {
        assert(t[1] == chars@[lo + 1]);
        let second = chars[lo + 1];
        '0' <= second && second <= '9'
    } else {
        true
    }
}

fn is_valid_integer_text(chars: &Vec<char>, lo: usize, hi: usize) -> (r: bool)
    requires
        lo <= hi <= chars.len(),
    ensures
        r == valid_integer_text(chars@.subrange(lo as int, hi as int)),
{
    let ghost t = chars@.subrange(lo as int, hi as int);
    if lo == hi {
        return false;
    }
    assert(t[0] == chars@[lo as int]);
    let first = chars[lo];
    if hi - lo == 1 && first == '0' {
        return true;
    }
    is_ascii_alphanumeric(first) && first != '0' && all_alphanumeric_in(chars, lo, hi)
}

fn is_valid_fraction_text(chars: &Vec<char>, lo: usize, hi: usize, may_be_empty: bool) -> (r:
    bool)
    requires
        lo <= hi <= chars.len(),
    ensures
        r == valid_fraction_text(chars@.subrange(lo as int, hi as int), may_be_empty),
{
    let ghost t = chars@.subrange(lo as int, hi as int);
    if lo == hi {
        return may_be_empty;
    }
    assert(t[0] == chars@[lo as int]);
    assert(t.last() == chars@[hi - 1]);
    if hi - lo == 1 && chars[lo] == '0' {
        return true;
    }
    let last = chars[hi - 1];
    all_alphanumeric_in(chars, lo, hi) && is_ascii_alphanumeric(last) && last != '0'
}

/// Where the parts of a number's text lie in its characters: whether a radix is written,
/// where the body after the `#` starts, and where the `.` is (the length when there is none).
pub struct NumberLayout {
    pub has_radix: bool,
    pub body_start: usize,
    pub point: usize,
}

/// The text that a layout of `chars` describes.
pub open spec fn layout_text(chars: Seq<char>, l: NumberLayout) -> NumberText {
    let n = chars.len() as int;
    let radix = if l.has_radix {
        Some(chars.subrange(0, l.body_start - 1))
    } else {
        None
    };
    let fraction_start = if l.point < n {
        l.point + 1
    } else {
        n
    };
    (radix, chars.subrange(l.body_start as int, l.point as int), chars.subrange(fraction_start, n))
}

/// Checks the lexical structure of a number, as [`number_syntax`] states it.
pub fn number_layout(chars: &Vec<char>) -> (r: Option<NumberLayout>)
    ensures
        match r {
            None => number_syntax(chars@) is None,
            Some(l) => {
                &&& l.body_start <= l.point <= chars.len()
                &&& (l.has_radix ==> 1 <= l.body_start)
                &&& (!l.has_radix ==> l.body_start == 0)
                &&& number_syntax(chars@) == Some(layout_text(chars@, l))
            },
        },
{
    let ghost s = chars@;
    let n = chars.len();
    let hash = index_of(chars, '#', 0, n);
    proof {
        lemma_find_first_at(s, '#', hash as int);
    }
    let has_radix = hash < n;
    let body_start = if has_radix {
        hash + 1
    } else {
        0
    };
    let ghost body = if has_radix {
        s.skip(hash + 1)
    } else {
        s
    };
    assert(body =~= s.subrange(body_start as int, n as int));
    let point = index_of(chars, '.', body_start, n);
    proof {
        assert forall|j: int| 0 <= j < point - body_start implies body[j] != '.' by {
            assert(body[j] == s[body_start + j]);
        }
        if point < n {
            assert(body[point - body_start] == s[point as int]);
        }
        lemma_find_first_at(body, '.', point - body_start);
    }
    let fraction_start = if point < n {
        point + 1
    } else {
        n
    };
    let radix_ok = if has_radix {
        is_valid_radix_text(chars, 0, hash)
    } else {
        true
    };
    let body_ok = if point < n {
        (is_valid_integer_text(chars, body_start, point) && is_valid_fraction_text(
            chars,
            fraction_start,
            n,
            true,
        )) || ((point == body_start || (point - body_start == 1 && chars[body_start] == '0'))
            && is_valid_fraction_text(chars, fraction_start, n, false))
    } else {
        is_valid_integer_text(chars, body_start, n)
    };
    let layout = NumberLayout { has_radix, body_start, point };
    proof {
        let integer = s.subrange(body_start as int, point as int);
        if point < n {
            assert(body.take(point - body_start) =~= integer);
            assert(body.skip(point - body_start + 1) =~= s.subrange(fraction_start as int, n as int));
            if point - body_start == 1 {
                assert(integer[0] == s[body_start as int]);
            }
        } else {
            assert(body =~= integer);
        }
        if has_radix {
            assert(s.take(hash as int) =~= s.subrange(0, hash as int));
        }
        assert(layout_text(s, layout).1 =~= integer);
        assert(layout_text(s, layout).2 =~= s.subrange(fraction_start as int, n as int));
    }
    if radix_ok && body_ok {
        Some(layout)
    } else {
        None
    }
}

/// Tests whether the text `s` has the lexical structure of a number.
pub fn is_number(s: &str) -> (r: bool)
    ensures
        r == (number_syntax(s@) is Some),
{
    let chars = chars_of(s);
    number_layout(&chars).is_some()
}

impl Number {
    /// Parses the text of a number literal into its exact value.
    ///
    /// The text is rejected when it does not have the lexical structure of a number, when its
    /// radix is larger than [`MAX_RADIX`], when a digit does not fit the radix, or when a
    /// portion's value does not fit in a `u128`.
    pub fn parse(number: &str) -> (r: Result<Number, ParseNumberError>)
        requires
            !names_radix_one(number@),
        ensures
            match number_value(number@) {
                Some(v) => r == Ok::<Number, ParseNumberError>(v),
                None => r is Err && r->Err_0@ == number@,
            },
    {
        let chars = chars_of(number);
        let n = chars.len();
        let layout = match number_layout(&chars) {
            Some(l) => l,
            None => {
                return Err(ParseNumberError::from(number));
            },
        };
        let ghost t = layout_text(chars@, layout);
        let radix: u32 = if layout.has_radix {
            let ghost r = chars@.subrange(0, layout.body_start - 1);
            let first = digit_value(chars[0]);
            proof {
                assert(r[0] == chars@[0]);
                assert(r.take(1).drop_last() =~= Seq::<char>::empty());
                assert(r.take(1).last() == r[0]);
                reveal_with_fuel(digits_value, 2);
                assert(digits_value(r.take(1), 10) == spec_digit_value(r[0]));
            }
            if layout.body_start == 3 {
                let second = digit_value(chars[1]);
                proof {
                    assert(r[1] == chars@[1]);
                    assert(r.drop_last() =~= r.take(1));
                }
                first * 10 + second
            } else {
                assert(r =~= r.take(1));
                first
            }
        } else {
            DECIMAL
        };
        assert(radix == radix_of(t));
        if radix > MAX_RADIX {
            return Err(ParseNumberError::from(number));
        }
        let fraction_start = if layout.point < n {
            layout.point + 1
        } else {
            n
        };
        let ghost zero = seq!['0'];
        assert(zero.drop_last() =~= Seq::<char>::empty());
        assert(digits_value(zero, radix as nat) == 0) by {
            assert(zero.last() == '0');
            assert(spec_digit_value('0') == 0);
            assert(digits_value(zero.drop_last(), radix as nat) == 0);
            assert(digits_value(zero.drop_last(), radix as nat) * radix == 0);
            assert(digits_value(zero, radix as nat) == digits_value(zero.drop_last(), radix as nat)
                * radix + spec_digit_value(zero.last()));
        }
        assert(digits_valid(zero, radix as nat));
        let integer = if layout.body_start == layout.point {
            Some(0u128)
        } else {
            parse_digits(&chars, layout.body_start, layout.point, radix)
        };
        let integer = match integer {
            Some(v) => v,
            None => {
                return Err(ParseNumberError::from(number));
            },
        };
        let (numerator, fraction_digits) = if fraction_start == n {
            (Some(0u128), 1usize)
        } else {
            (parse_digits(&chars, fraction_start, n, radix), n - fraction_start)
        };
        let numerator = match numerator {
            Some(v) => v,
            None => {
                return Err(ParseNumberError::from(number));
            },
        };
        if layout.body_start == layout.point && fraction_start == n {
            return Err(ParseNumberError::from(number));
        }
        Ok(Number { integer, numerator, radix, fraction_digits })
    }
}

} // verus!
