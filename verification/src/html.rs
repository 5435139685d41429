//! Text made safe for a place in an HTML page.

use vstd::prelude::*;
use askama::{Html, MarkupDisplay};

verus! {

/// What stands for one character in an HTML page: the two chevrons, the
/// ampersand and the two quotes are written as entities, every other
/// character as itself.
pub open spec fn escaped_char(c: char) -> Seq<char> {
    if c == '<' {
        "&lt;"@
    } else if c == '>' {
        "&gt;"@
    } else if c == '&' {
        "&amp;"@
    } else if c == '"' {
        "&quot;"@
    } else if c == '\'' {
        "&#x27;"@
    } else {
        seq![c]
    }
}

/// What stands for a text in an HTML page: every character escaped, in
/// order.
pub open spec fn escaped(text: Seq<char>) -> Seq<char>
    decreases text.len(),
{
    if text.len() == 0 {
        Seq::empty()
    } else {
        escaped(text.drop_last()) + escaped_char(text.last())
    }
}

/// Escapes a text for an HTML page.
///
/// Calls `askama::MarkupDisplay::new_unsafe` with the escaper `askama::Html`
/// and writes the result into a string. The contract claims what that
/// escaper does: it replaces each of `<`, `>`, `&`, `"` and `'` by its
/// entity and copies everything else.
#[verifier::external_body]
pub(crate) fn escape_html(text: &str) -> (out: String)
    ensures
        out@ == escaped(text@),
{
    MarkupDisplay::new_unsafe(text, Html).to_string()
}

/// The number of places in `s` where a tag whose name begins with `c`
/// opens: where `<` is directly followed by `c`.
pub open spec fn tag_count(s: Seq<char>, c: char) -> nat
    decreases s.len(),
{
    if s.len() < 2 {
        0
    } else {
        tag_count(s.drop_last(), c) + if s[s.len() - 2] == '<' && s.last() == c {
            1nat
        } else {
            0nat
        }
    }
}

/// Whether `s` can be continued without a tag opening across the seam: it
/// does not end in `<`.
pub open spec fn settled(s: Seq<char>) -> bool {
    s.len() == 0 || s.last() != '<'
}

/// Whether `s` holds no `<` at all.
pub open spec fn inert(s: Seq<char>) -> bool {
    forall|i: int| 0 <= i < s.len() ==> s[i] != '<'
}

/// Behind a text that does not end in `<`, tags are counted piece by
/// piece, and two settled pieces make a settled whole.
pub proof fn lemma_tag_count_of_pieces(a: Seq<char>, b: Seq<char>, c: char)
    requires
        settled(a),
    ensures
        tag_count(a + b, c) == tag_count(a, c) + tag_count(b, c),
        settled(b) ==> settled(a + b),
    decreases b.len(),
{
    if b.len() == 0 {
        assert(a + b == a);
    } else {
        let before = b.drop_last();
        assert((a + b).drop_last() == a + before);
        lemma_tag_count_of_pieces(a, before, c);
        if before.len() == 0 {
            assert(a + before == a);
        }
    }
}

/// A text in which `<` is nowhere followed by `c` opens no such tag.
pub proof fn lemma_no_tag(s: Seq<char>, c: char)
    requires
        forall|i: int| 0 <= i < s.len() - 1 ==> !(#[trigger] s[i] == '<' && s[i + 1] == c),
    ensures
        tag_count(s, c) == 0,
    decreases s.len(),
{
    if s.len() >= 2 {
        let before = s.drop_last();
        assert forall|i: int| 0 <= i < before.len() - 1 implies !(#[trigger] before[i] == '<'
            && before[i + 1] == c) by {
            assert(before[i] == s[i] && before[i + 1] == s[i + 1]);
        }
        lemma_no_tag(before, c);
        assert(s[s.len() - 2 + 1] == s.last());
    }
}

/// A text in which `<` is followed by `c` at `at` and nowhere else opens
/// one such tag.
pub proof fn lemma_one_tag(s: Seq<char>, c: char, at: int)
    requires
        0 <= at < s.len() - 1,
        s[at] == '<',
        s[at + 1] == c,
        forall|i: int|
            0 <= i < s.len() - 1 && i != at ==> !(#[trigger] s[i] == '<' && s[i + 1] == c),
    ensures
        tag_count(s, c) == 1,
    decreases s.len(),
{
    let before = s.drop_last();
    if at == s.len() - 2 {
        assert forall|i: int| 0 <= i < before.len() - 1 implies !(#[trigger] before[i] == '<'
            && before[i + 1] == c) by {
            assert(before[i] == s[i] && before[i + 1] == s[i + 1]);
        }
        lemma_no_tag(before, c);
    } else {
        assert forall|i: int| 0 <= i < before.len() - 1 && i != at implies !(#[trigger] before[i]
            == '<' && before[i + 1] == c) by {
            assert(before[i] == s[i] && before[i + 1] == s[i + 1]);
        }
        lemma_one_tag(before, c, at);
        assert(s[s.len() - 2 + 1] == s.last());
    }
}

/// Escaped text holds no `<`: whatever it says, it is settled and opens no
/// tag.
pub proof fn lemma_escaped_is_inert(text: Seq<char>)
    ensures
        inert(escaped(text)),
        settled(escaped(text)),
        forall|c: char| tag_count(escaped(text), c) == 0,
    decreases text.len(),
{
    if text.len() > 0 {
        lemma_escaped_is_inert(text.drop_last());
        reveal_strlit("&lt;");
        reveal_strlit("&gt;");
        reveal_strlit("&amp;");
        reveal_strlit("&quot;");
        reveal_strlit("&#x27;");
        assert(inert(escaped_char(text.last())));
    }
    assert forall|c: char| tag_count(escaped(text), c) == 0 by {
        lemma_no_tag(escaped(text), c);
    }
}

} // verus!
