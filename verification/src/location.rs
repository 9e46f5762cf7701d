//! The `location` header of a freshly opened room: `/{category}/{slug}`.

use crate::error::Error;
use vstd::prelude::*;

verus! {

/// A path segment: at least one character, and no slash.
pub open spec fn is_segment(s: Seq<char>) -> bool {
    s.len() > 0 && forall|i: int| 0 <= i < s.len() ==> s[i] != '/'
}

/// The location of the room `slug` in `category`.
pub open spec fn location_text(category: Seq<char>, slug: Seq<char>) -> Seq<char> {
    seq!['/'] + category + seq!['/'] + slug
}

/// `text` is the location of the room `slug` in `category`, both of them
/// segments.
pub open spec fn is_location(text: Seq<char>, category: Seq<char>, slug: Seq<char>) -> bool {
    is_segment(category) && is_segment(slug) && text == location_text(category, slug)
}

/// `text` is the location of a room, but of none in `category`.
pub open spec fn is_location_elsewhere(text: Seq<char>, category: Seq<char>) -> bool {
    &&& exists|c: Seq<char>, s: Seq<char>| is_location(text, c, s) && c != category
    &&& forall|s: Seq<char>| !is_location(text, category, s)
}

/// Where the parts of a location lie in its text.
pub proof fn lemma_location_shape(text: Seq<char>, category: Seq<char>, slug: Seq<char>)
    requires
        is_location(text, category, slug),
    ensures
        text.len() == category.len() + slug.len() + 2,
        text[0] == '/',
        text[1 + category.len() as int] == '/',
        forall|i: int| 1 <= i < 1 + category.len() as int ==> text[i] != '/',
        forall|i: int| 2 + category.len() as int <= i < text.len() ==> text[i] != '/',
        category == text.subrange(1, 1 + category.len() as int),
        slug == text.subrange(2 + category.len() as int, text.len() as int),
{
    assert forall|i: int| 1 <= i < 1 + category.len() as int implies text[i] != '/' by {
        assert(text[i] == category[i - 1]);
    }
    assert forall|i: int| 2 + category.len() as int <= i < text.len() implies text[i] != '/' by {
        assert(text[i] == slug[i - 2 - category.len() as int]);
    }
    assert(category =~= text.subrange(1, 1 + category.len() as int));
    assert(slug =~= text.subrange(2 + category.len() as int, text.len() as int));
}

/// A text is the location of at most one room.
pub proof fn lemma_location_unique(
    text: Seq<char>,
    category: Seq<char>,
    slug: Seq<char>,
    other_category: Seq<char>,
    other_slug: Seq<char>,
)
    requires
        is_location(text, category, slug),
        is_location(text, other_category, other_slug),
    ensures
        category == other_category,
        slug == other_slug,
{
    lemma_location_shape(text, category, slug);
    lemma_location_shape(text, other_category, other_slug);
    if category.len() < other_category.len() {
        assert(text[1 + category.len() as int] == '/');
    } else if other_category.len() < category.len() {
        assert(text[1 + other_category.len() as int] == '/');
    }
}

/// The place of the first slash of `text` at or after `from`, or `len` if
/// there is none.
fn find_slash(text: &str, from: usize, len: usize) -> (at: usize)
    requires
        len == text@.len(),
        from <= len,
    ensures
        from <= at <= len,
        forall|i: int| from <= i < at ==> text@[i] != '/',
        at < len ==> text@[at as int] == '/',
{
    let mut at: usize = from;
    while at < len
        invariant
            len == text@.len(),
            from <= at <= len,
            forall|i: int| from <= i < at ==> text@[i] != '/',
        decreases len - at,
    {
        if text.get_char(at) == '/' {
            return at;
        }
        at = at + 1;
    }
    at
}

/// Splits a location into its category and its slug. The text must be a slash,
/// a segment, a slash and a segment, with nothing before, between or after.
pub fn parse_location(location: &str) -> (r: Option<(String, String)>)
    ensures
        match r {
            Some((category, slug)) => is_location(location@, category@, slug@),
            None => forall|category: Seq<char>, slug: Seq<char>|
                !is_location(location@, category, slug),
        },
{
    let ghost text = location@;
    let len = location.unicode_len();
    if len == 0 || location.get_char(0) != '/' {
        proof {
            assert forall|category: Seq<char>, slug: Seq<char>|
                !is_location(text, category, slug) by {
                if is_location(text, category, slug) {
                    lemma_location_shape(text, category, slug);
                }
            }
        }
        return None;
    }
    let mid = find_slash(location, 1, len);
    if mid == 1 || mid == len || mid + 1 == len {
        proof {
            assert forall|category: Seq<char>, slug: Seq<char>|
                !is_location(text, category, slug) by {
                if is_location(text, category, slug) {
                    lemma_location_shape(text, category, slug);
                    lemma_first_slash(text, category, slug, mid as int);
                }
            }
        }
        return None;
    }
    let end = find_slash(location, mid + 1, len);
    if end != len {
        proof {
            assert forall|category: Seq<char>, slug: Seq<char>|
                !is_location(text, category, slug) by {
                if is_location(text, category, slug) {
                    lemma_location_shape(text, category, slug);
                    lemma_first_slash(text, category, slug, mid as int);
                    assert(text[end as int] == '/');
                }
            }
        }
        return None;
    }
    let category = location.substring_char(1, mid).to_owned();
    let slug = location.substring_char(mid + 1, len).to_owned();
    proof {
        assert(text =~= location_text(category@, slug@));
    }
    Some((category, slug))
}

/// The slash that ends the category is the first one after the leading slash.
proof fn lemma_first_slash(text: Seq<char>, category: Seq<char>, slug: Seq<char>, mid: int)
    requires
        is_location(text, category, slug),
        1 <= mid <= text.len(),
        forall|i: int| 1 <= i < mid ==> text[i] != '/',
        mid < text.len() ==> text[mid] == '/',
    ensures
        mid == 1 + category.len() as int,
{
    lemma_location_shape(text, category, slug);
    if mid < 1 + category.len() as int {
        assert(text[mid] == '/');
    } else if mid > 1 + category.len() as int {
        assert(text[1 + category.len() as int] == '/');
    }
}

/// Reads the slug out of a location, and holds the category in it against the
/// one that was asked for. The two are compared as they stand, character by
/// character.
pub fn slug_from_location(location: &str, category: &str) -> (r: Result<String, Error>)
    ensures
        match r {
            Ok(slug) => is_location(location@, category@, slug@),
            Err(Error::LocationFormat) => forall|c: Seq<char>, s: Seq<char>|
                !is_location(location@, c, s),
            Err(Error::LocationCategory) => is_location_elsewhere(location@, category@),
            Err(_) => false,
        },
{
    match parse_location(location) {
        None => Err(Error::LocationFormat),
        Some((found, slug)) => {
            if found == String::from_str(category) {
                Ok(slug)
            } else {
                proof {
                    assert(is_location(location@, found@, slug@) && found@ != category@);
                    assert forall|s: Seq<char>| !is_location(location@, category@, s) by {
                        if is_location(location@, category@, s) {
                            lemma_location_unique(location@, found@, slug@, category@, s);
                        }
                    }
                }
                Err(Error::LocationCategory)
            }
        },
    }
}

} // verus!
