//! Reports errors to users.
use vstd::prelude::*;

verus! {

/// Reports errors in a user-friendly format, against the source code they were found in.
pub struct Reporter<'a> {
    source: &'a str,
}

impl<'a> View for Reporter<'a> {
    type V = Seq<char>;

    /// The source code the reported errors were found in.
    closed spec fn view(&self) -> Seq<char> {
        self.source@
    }
}

impl<'a> Reporter<'a> {
    /// The source code the reported errors were found in.
    pub fn source(&self) -> (r: &'a str)
        ensures
            r@ == self@,
    {
        self.source
    }
}

impl<'a> From<&'a str> for Reporter<'a> {
    fn from(source: &'a str) -> (r: Reporter<'a>) {
        Reporter { source }
    }
}

impl<'a> vstd::std_specs::convert::FromSpecImpl<&'a str> for Reporter<'a> {
    open spec fn obeys_from_spec() -> bool {
        true
    }

    closed spec fn from_spec(source: &'a str) -> Reporter<'a> {
        Reporter { source }
    }
}

/// A reporter made from a source reports against that source.
pub proof fn lemma_reporter_from_source<'a>(source: &'a str)
    ensures
        <Reporter<'a> as vstd::std_specs::convert::FromSpec<&'a str>>::from_spec(source)@
            == source@,
{
}

} // verus!
