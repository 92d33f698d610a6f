//! Slugs: the file-name-safe form of a project name.
use vstd::prelude::*;

verus! {

/// A character that may stand in a slug.
pub open spec fn is_slug_char(c: char) -> bool {
    ('a' <= c && c <= 'z') || ('0' <= c && c <= '9') || c == '-'
}

/// `s` is made of `a-z`, `0-9` and `-`, never holds two `-` in a row and
/// neither starts nor ends with `-`.
pub open spec fn is_slug(s: Seq<char>) -> bool {
    &&& forall|i: int| 0 <= i < s.len() ==> is_slug_char(#[trigger] s[i])
    &&& s.len() > 0 ==> s[0] != '-' && s.last() != '-'
    &&& forall|i: int| 0 <= i < s.len() - 1 ==> !(#[trigger] s[i] == '-' && s[i + 1] == '-')
}

/// The slug that `slug::slugify` makes of a text.
pub uninterp spec fn slug_of(s: Seq<char>) -> Seq<char>;

/// Relies on `slug::slugify`: its result depends on the text alone, is made of
/// `a-z`, `0-9` and `-` with no `--` and no `-` at either end, and a text
/// already of that shape comes back unchanged (each of its characters is
/// pushed as it is).
#[verifier::external_body]
fn slugify_text(s: &str) -> (r: String)
    ensures
        r@ == slug_of(s@),
        is_slug(r@),
        is_slug(s@) ==> r@ == s@,
{
    slug::slugify(s)
}

/// The slug of a project name. Slugging a slug gives it back, so slugging is
/// idempotent: `slugify(slugify(x)) == slugify(x)`.
pub fn slugify(name: &str) -> (r: String)
    ensures
        r@ == slug_of(name@),
        is_slug(r@),
        is_slug(name@) ==> r@ == name@,
{
    slugify_text(name)
}

/// A slug holds no white space and no upper-case letter.
pub proof fn lemma_slug_is_plain(s: Seq<char>)
    requires
        is_slug(s),
    ensures
        forall|i: int|
            0 <= i < s.len() ==> !(#[trigger] s[i] == ' ' || s[i] == '\t' || s[i] == '\n' || s[i]
                == '\r') && !('A' <= s[i] && s[i] <= 'Z'),
{
    assert forall|i: int| 0 <= i < s.len() implies !(#[trigger] s[i] == ' ' || s[i] == '\t' || s[i]
        == '\n' || s[i] == '\r') && !('A' <= s[i] && s[i] <= 'Z') by {
        assert(is_slug_char(s[i]));
    }
}

} // verus!
