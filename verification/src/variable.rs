//! The names of the meta-variables that a CGI script receives.
//!
//! See <https://www.rfc-editor.org/rfc/rfc3875#section-4.1.18>
use crate::strings::push_char;
use vstd::prelude::*;

verus! {

/// A character of a meta-variable name: `-` becomes `_` and lower-case ASCII letters become
/// upper-case.
pub open spec fn meta_char(c: char) -> char {
    if c == '-' {
        '_'
    } else if 'a' <= c <= 'z' {
        ((c as u32) - 32) as char
    } else {
        c
    }
}

/// The meta-variable name for `name`: its characters as [`meta_char`] has them, after the
/// prefix and `_` where there is a prefix.
pub open spec fn meta_variable(name: Seq<char>, prefix: Option<Seq<char>>) -> Seq<char> {
    let body = name.map_values(|c: char| meta_char(c));
    match prefix {
        Some(p) => p + seq!['_'] + body,
        None => body,
    }
}

/// Converts a name into the name of a meta-variable.
pub trait ToMetaVariable {
    /// The characters of the name.
    spec fn name(&self) -> Seq<char>;

    /// The meta-variable name for this name, after `prefix` and `_` where a prefix is given.
    fn to_meta_variable(&self, prefix: Option<&str>) -> (r: String)
        ensures
            r@ == meta_variable(
                self.name(),
                match prefix {
                    Some(p) => Some(p@),
                    None => None,
                },
            ),
    ;
}

fn to_meta_char(c: char) -> (r: char)
    ensures
        r == meta_char(c),
{
    if c == '-' {
        '_'
    } else if 'a' <= c && c <= 'z' {
        let b = c as u8;
        (b - 32) as char
    } else {
        c
    }
}

impl ToMetaVariable for str {
    open spec fn name(&self) -> Seq<char> {
        self@
    }

    fn to_meta_variable(&self, prefix: Option<&str>) -> (r: String) {
        let mut r = String::new();
        let ghost start: Seq<char> = match prefix {
            Some(p) => p@ + seq!['_'],
            None => Seq::empty(),
        };
        match prefix {
            Some(p) => {
                r.append(p);
                push_char(&mut r, '_');
            },
            None => {},
        }
        assert(r@ =~= start);
        let n = self.unicode_len();
        let mut i: usize = 0;
        while i < n
            invariant
                n == self@.len(),
                i <= n,
                r@ == start + self@.take(i as int).map_values(|c: char| meta_char(c)),
            decreases n - i,
        {
            let c = self.get_char(i);
            push_char(&mut r, to_meta_char(c));
            assert(self@.take(i as int + 1).map_values(|c: char| meta_char(c)) =~= self@.take(
                i as int,
            ).map_values(|c: char| meta_char(c)).push(meta_char(c)));
            i = i + 1;
        }
        assert(self@.take(n as int) =~= self@);
        r
    }
}

} // verus!
