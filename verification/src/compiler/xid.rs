//! The `XID_Start` and `XID_Continue` Unicode properties, looked up in the tables of the
//! `unicode-xid` crate.
use unicode_xid::UnicodeXID;
use vstd::prelude::*;

verus! {

/// What `UnicodeXID::is_xid_start` answers for `c`.
pub uninterp spec fn unicode_xid_start(c: char) -> bool;

/// What `UnicodeXID::is_xid_continue` answers for `c`.
pub uninterp spec fn unicode_xid_continue(c: char) -> bool;

/// `<char as unicode_xid::UnicodeXID>::is_xid_start`: whether `c` has the `XID_Start`
/// property. The claim is the name of the answer, and what the crate's source states for
/// ASCII: an ASCII character is `XID_Start` exactly when it is a letter.
#[verifier::external_body]
pub(crate) fn is_xid_start(c: char) -> (r: bool)
    ensures
        r == unicode_xid_start(c),
        (c as u32) < 0x80 ==> (r <==> (('a' <= c && c <= 'z') || ('A' <= c && c <= 'Z'))),
{
    c.is_xid_start()
}

/// `<char as unicode_xid::UnicodeXID>::is_xid_continue`: whether `c` has the
/// `XID_Continue` property. The claim is the name of the answer, and what the crate's source
/// states for ASCII: an ASCII character is `XID_Continue` exactly when it is a letter, a digit
/// or `_`.
#[verifier::external_body]
pub(crate) fn is_xid_continue(c: char) -> (r: bool)
    ensures
        r == unicode_xid_continue(c),
        (c as u32) < 0x80 ==> (r <==> (('a' <= c && c <= 'z') || ('A' <= c && c <= 'Z') || ('0'
            <= c && c <= '9') || c == '_')),
{
    c.is_xid_continue()
}

} // verus!
