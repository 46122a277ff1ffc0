//! What the server is started with, brought into the form that the handler
//! and the resolver take.

use vstd::prelude::*;
use vstd::string::StringExecFns;
use crate::text::strip_prefix;

verus! {

/// The suffix in the form that the handler takes: empty, or beginning with a
/// dot.
pub open spec fn suffix_of(raw: Seq<char>) -> Seq<char> {
    if raw.len() == 0 {
        raw
    } else if raw[0] == '.' {
        raw
    } else {
        seq!['.'] + raw
    }
}

/// The suffix as it was given, with a dot before it where it is not empty and
/// does not begin with one.
pub fn normalize_suffix(raw: &str) -> (suffix: String)
    ensures
        suffix@ == suffix_of(raw@),
        suffix@.len() > 0 ==> suffix@[0] == '.',
{
    proof {
        reveal_strlit(".");
    }
    if raw.is_empty() {
        String::new()
    } else if strip_prefix(raw, ".").is_some() {
        assert(raw@[0] == raw@.subrange(0, 1)[0]);
        raw.to_owned()
    } else {
        ".".to_owned().concat(raw)
    }
}

/// The time to live of the answer records, in seconds: the hit timeout in
/// seconds, of which the low 32 bits are taken.
pub fn answer_ttl(hit_timeout_secs: u64) -> (ttl: u32)
    ensures
        ttl == hit_timeout_secs % 0x1_0000_0000,
{
    let ttl = #[verifier::truncate] (hit_timeout_secs as u32);
    assert(ttl == hit_timeout_secs % 0x1_0000_0000) by (bit_vector)
        requires
            ttl == hit_timeout_secs as u32,
    ;
    ttl
}

} // verus!
