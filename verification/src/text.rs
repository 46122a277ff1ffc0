//! Operations on names as text, stated over sequences of characters.

use vstd::prelude::*;

verus! {

/// The ASCII lower-case form of one character: `A`..`Z` go to `a`..`z`, every
/// other character stays.
pub open spec fn lower_char(c: char) -> char {
    if 'A' <= c && c <= 'Z' {
        ((c as u8 + 32) as u8) as char
    } else {
        c
    }
}

/// The ASCII lower-case form of a text, character by character.
pub open spec fn lower(s: Seq<char>) -> Seq<char> {
    Seq::new(s.len(), |i: int| lower_char(s[i]))
}

/// The text without the run of `c` at its end.
pub open spec fn trim_end(s: Seq<char>, c: char) -> Seq<char>
    decreases s.len(),
{
    if s.len() > 0 && s.last() == c {
        trim_end(s.drop_last(), c)
    } else {
        s
    }
}

/// The form under which a name is looked up: no trailing dots, lower case.
pub open spec fn normalize(name: Seq<char>) -> Seq<char> {
    lower(trim_end(name, '.'))
}

/// Whether a text is in the form that `normalize` gives.
pub open spec fn is_normalized(name: Seq<char>) -> bool {
    &&& name.len() > 0 ==> name.last() != '.'
    &&& forall|i: int| 0 <= i < name.len() ==> !('A' <= #[trigger] name[i] && name[i] <= 'Z')
}

/// `str::strip_prefix` of the standard library, with a string as the pattern.
/// Believed of it: the result is `Some` exactly when the text starts with the
/// prefix, and then holds what follows the prefix.
#[verifier::external_body]
pub(crate) fn strip_prefix<'a>(s: &'a str, prefix: &str) -> (rest: Option<&'a str>)
    ensures
        rest is Some <==> prefix@.is_prefix_of(s@),
        rest matches Some(r) ==> r@ == s@.skip(prefix@.len() as int),
{
    s.strip_prefix(prefix)
}

/// `str::strip_suffix` of the standard library, with a string as the pattern.
/// Believed of it: the result is `Some` exactly when the text ends with the
/// suffix, and then holds what stands before the suffix.
#[verifier::external_body]
pub(crate) fn strip_suffix<'a>(s: &'a str, suffix: &str) -> (rest: Option<&'a str>)
    ensures
        rest is Some <==> suffix@.is_suffix_of(s@),
        rest matches Some(r) ==> r@ == s@.take(s@.len() - suffix@.len()),
{
    s.strip_suffix(suffix)
}

/// `str::trim_end_matches` of the standard library, with one character as the
/// pattern. Believed of it: the result is the text without the run of that
/// character at its end.
#[verifier::external_body]
pub(crate) fn trim_end_matches<'a>(s: &'a str, c: char) -> (rest: &'a str)
    ensures
        rest@ == trim_end(s@, c),
{
    s.trim_end_matches(c)
}

/// `str::to_ascii_lowercase` of the standard library. Believed of it: each of
/// `A`..`Z` is replaced by its lower-case letter, every other character stays.
#[verifier::external_body]
pub(crate) fn to_ascii_lowercase(s: &str) -> (lowered: String)
    ensures
        lowered@ == lower(s@),
{
    s.to_ascii_lowercase()
}

/// The name in the form under which it is looked up.
pub fn normalize_name(name: &str) -> (key: String)
    ensures
        key@ == normalize(name@),
        is_normalized(key@),
{
    let trimmed = trim_end_matches(name, '.');
    let key = to_ascii_lowercase(trimmed);
    proof {
        lemma_normalize_is_normalized(name@);
    }
    key
}

/// What `trim_end` gives is a prefix of the text that does not end with `c`,
/// and what it left out holds `c` only.
pub proof fn lemma_trim_end(s: Seq<char>, c: char)
    ensures
        trim_end(s, c).len() <= s.len(),
        trim_end(s, c) == s.take(trim_end(s, c).len() as int),
        trim_end(s, c).len() > 0 ==> trim_end(s, c).last() != c,
        forall|i: int| trim_end(s, c).len() <= i < s.len() ==> s[i] == c,
    decreases s.len(),
{
    if s.len() > 0 && s.last() == c {
        let shorter = s.drop_last();
        lemma_trim_end(shorter, c);
        let kept = trim_end(shorter, c).len() as int;
        assert(shorter.take(kept) =~= s.take(kept));
        assert forall|i: int| kept <= i < s.len() implies s[i] == c by {
            if i < shorter.len() {
                assert(shorter[i] == c);
            }
        }
    } else {
        assert(s.take(s.len() as int) =~= s);
    }
}

/// A text that does not end with `c` is left as it is.
pub proof fn lemma_trim_end_fixed(s: Seq<char>, c: char)
    requires
        s.len() > 0 ==> s.last() != c,
    ensures
        trim_end(s, c) == s,
{
}

/// Lower-casing turns no character into a dot and no dot into another character.
pub proof fn lemma_lower_char_dot(c: char)
    ensures
        (lower_char(c) == '.') <==> (c == '.'),
        !('A' <= lower_char(c) && lower_char(c) <= 'Z'),
        lower_char(lower_char(c)) == lower_char(c),
{
}

/// What `normalize` gives is in normal form.
pub proof fn lemma_normalize_is_normalized(name: Seq<char>)
    ensures
        is_normalized(normalize(name)),
{
    let trimmed = trim_end(name, '.');
    lemma_trim_end(name, '.');
    let key = normalize(name);
    assert forall|i: int| 0 <= i < key.len() implies !('A' <= #[trigger] key[i] && key[i] <= 'Z') by {
        lemma_lower_char_dot(trimmed[i]);
    }
    if key.len() > 0 {
        lemma_lower_char_dot(trimmed.last());
    }
}

/// A text in normal form is its own normal form.
pub proof fn lemma_normalize_fixed(name: Seq<char>)
    requires
        is_normalized(name),
    ensures
        normalize(name) == name,
{
    lemma_trim_end_fixed(name, '.');
}

/// Normalizing twice is normalizing once.
pub proof fn lemma_normalize_idempotent(name: Seq<char>)
    ensures
        normalize(normalize(name)) == normalize(name),
{
    lemma_normalize_is_normalized(name);
    lemma_normalize_fixed(normalize(name));
}

} // verus!
