//! Prefix removal that hands the text back unchanged where the prefix is absent.

use vstd::prelude::*;
use crate::text::strip_prefix;

verus! {

/// What `strip_prefix_sane` returns, over the characters of the two texts.
pub open spec fn without_prefix(s: Seq<char>, prefix: Seq<char>) -> Seq<char> {
    if prefix.is_prefix_of(s) {
        s.skip(prefix.len() as int)
    } else {
        s
    }
}

/// Texts from which a prefix can be taken.
pub trait SaneStrip {
    /// The text without the prefix, or the whole text where it does not start
    /// with the prefix.
    fn strip_prefix_sane<'a>(&'a self, prefix: &str) -> &'a str;
}

impl SaneStrip for str {
    fn strip_prefix_sane<'a>(&'a self, prefix: &str) -> (rest: &'a str)
        ensures
            rest@ == without_prefix(self@, prefix@),
    {
        if let Some(result) = strip_prefix(self, prefix) {
            result
        } else {
            self
        }
    }
}

} // verus!
