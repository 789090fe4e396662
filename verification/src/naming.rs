//! The names of pages and of blocks of content, as they are stored.
//!
//! A name is stored as its slug with `_` in place of `-`, so that templates
//! can use it as an identifier.

use vstd::prelude::*;

verus! {

/// The slug that `slug::slugify` makes of a text.
pub uninterp spec fn slug_of(text: Seq<char>) -> Seq<char>;

/// `c` is a lower-case ASCII letter or an ASCII digit.
pub open spec fn is_word_char(c: char) -> bool {
    0x61 <= c as u32 <= 0x7A || 0x30 <= c as u32 <= 0x39
}

/// `s` with `_` in place of each `-`.
pub open spec fn underscored(s: Seq<char>) -> Seq<char> {
    s.map_values(
        |c: char|
            if c == '-' {
                '_'
            } else {
                c
            },
    )
}

/// The name under which `text` is stored.
pub open spec fn stored_name(text: Seq<char>) -> Seq<char> {
    underscored(slug_of(text))
}

/// `slug::slugify`: the text in lower-case ASCII, with every run of other
/// characters turned into one `-`.
///
/// Trusted: the slug depends on the text alone and is made of `a` to `z`, `0`
/// to `9` and `-`.
#[verifier::external_body]
fn slugify(text: &str) -> (slug: String)
    ensures
        slug@ == slug_of(text@),
        forall|i: int| 0 <= i < slug@.len() ==> is_word_char(#[trigger] slug@[i]) || slug@[i] == '-',
{
    slug::slugify(text)
}

/// `s` with `_` in place of each `-`.
pub fn with_underscores(s: &str) -> (r: String)
    ensures
        r@ == underscored(s@),
{
    let mut r = String::new();
    for c in it: s.chars()
        invariant
            it.seq() == s@,
            r@ == underscored(s@.take(it.index() as int)),
    {
        let ghost before = s@.take(it.index() as int);
        let kept: char = if c == '-' {
            '_'
        } else {
            c
        };
        r.push(kept);
        assert(underscored(s@.take(it.index() + 1)) =~= underscored(before).push(kept));
    }
    assert(s@.take(s@.len() as int) =~= s@);
    r
}

/// The name under which `text` is stored: made of lower-case letters, digits
/// and `_` alone.
pub fn store_name(text: &str) -> (name: String)
    ensures
        name@ == stored_name(text@),
        forall|i: int| 0 <= i < name@.len() ==> is_word_char(#[trigger] name@[i]) || name@[i] == '_',
{
    let slug = slugify(text);
    let name = with_underscores(slug.as_str());
    assert forall|i: int| 0 <= i < name@.len() implies is_word_char(#[trigger] name@[i]) || name@[i]
        == '_' by {
        assert(is_word_char(slug@[i]) || slug@[i] == '-');
    }
    name
}

} // verus!
