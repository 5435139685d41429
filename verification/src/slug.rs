//! Slugs: titles with hyphens in place of spaces, and the way back.

use vstd::prelude::*;
use crate::text::{replace_char, replaced};

verus! {

/// The slug of a title: every space becomes a hyphen, nothing else changes.
pub open spec fn slug_of(title: Seq<char>) -> Seq<char> {
    replaced(title, ' ', '-')
}

/// The display form of a slug: every hyphen becomes a space.
pub open spec fn unslug_of(slug: Seq<char>) -> Seq<char> {
    replaced(slug, '-', ' ')
}

/// Derives the slug under which a title is addressed.
pub fn slugify(title: &str) -> (slug: String)
    ensures
        slug@ == slug_of(title@),
{
    replace_char(title, ' ', '-')
}

/// Turns the hyphens of a slug back into spaces for display.
pub fn rmdashes(title: &str) -> (shown: String)
    ensures
        shown@ == unslug_of(title@),
{
    replace_char(title, '-', ' ')
}

/// A slug is as long as its title, holds a hyphen wherever the title holds a
/// space, agrees with the title everywhere else, and holds no space.
pub proof fn lemma_slug_replaces_every_space(title: Seq<char>)
    ensures
        slug_of(title).len() == title.len(),
        forall|i: int|
            0 <= i < title.len() ==> #[trigger] slug_of(title)[i] == if title[i] == ' ' {
                '-'
            } else {
                title[i]
            },
        !slug_of(title).contains(' '),
{
}

/// Slugging a title that holds no hyphen loses nothing: turning the hyphens
/// of the slug back into spaces restores the title exactly.
pub proof fn lemma_unslug_restores_title(title: Seq<char>)
    requires
        !title.contains('-'),
    ensures
        unslug_of(slug_of(title)) == title,
{
    assert forall|i: int| 0 <= i < title.len() implies unslug_of(slug_of(title))[i]
        == title[i] by {
        assert(title.contains(title[i]));
    }
}

/// A title that holds a hyphen does not come back: its hyphens return as
/// spaces.
pub proof fn lemma_unslug_loses_hyphens(title: Seq<char>)
    requires
        title.contains('-'),
    ensures
        unslug_of(slug_of(title)) != title,
{
    let i = choose|i: int| 0 <= i < title.len() && title[i] == '-';
    assert(unslug_of(slug_of(title))[i] == ' ');
}

} // verus!
