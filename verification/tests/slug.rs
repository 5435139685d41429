use post_index::slug::{rmdashes, slugify};
use post_index::text::{replace_char, same_text};

#[test]
fn slug_turns_every_space_into_a_hyphen() {
    assert_eq!(slugify("Hello World"), "Hello-World");
    assert_eq!(slugify("a b  c "), "a-b--c-");
    assert_eq!(slugify(" "), "-");
}

#[test]
fn slug_leaves_other_characters_alone() {
    assert_eq!(slugify(""), "");
    assert_eq!(slugify("nospace"), "nospace");
    assert_eq!(slugify("tab\there"), "tab\there");
    assert_eq!(slugify("caf\u{e9} \u{1F408} ok"), "caf\u{e9}-\u{1F408}-ok");
}

#[test]
fn rmdashes_turns_every_hyphen_into_a_space() {
    assert_eq!(rmdashes("Hello-World"), "Hello World");
    assert_eq!(rmdashes("--"), "  ");
    assert_eq!(rmdashes("plain"), "plain");
}

#[test]
fn unslug_restores_a_title_without_hyphens() {
    for title in ["Hello World", "a b c", "  lead and trail  ", "", "one"] {
        assert_eq!(rmdashes(&slugify(title)), title);
    }
}

#[test]
fn unslug_does_not_restore_a_hyphenated_title() {
    let title = "well-known fact";
    assert_eq!(slugify(title), "well-known-fact");
    assert_eq!(rmdashes(&slugify(title)), "well known fact");
}

#[test]
fn slug_agrees_with_the_standard_replacement() {
    for title in ["Hello World", " x ", "a-b c", "\u{3042} \u{3044}"] {
        assert_eq!(slugify(title), title.replace(" ", "-"));
        assert_eq!(rmdashes(title), title.replace("-", " "));
    }
}

#[test]
fn replace_char_replaces_one_character_only() {
    assert_eq!(replace_char("banana", 'a', 'o'), "bonono");
    assert_eq!(replace_char("banana", 'x', 'o'), "banana");
    assert_eq!(replace_char("banana", 'a', 'a'), "banana");
}

#[test]
fn same_text_compares_whole_texts() {
    assert!(same_text("", ""));
    assert!(same_text("abc", "abc"));
    assert!(!same_text("abc", "abd"));
    assert!(!same_text("abc", "ab"));
    assert!(!same_text("ab", "abc"));
    assert!(!same_text("", "a"));
    assert!(same_text("\u{1F408}x", "\u{1F408}x"));
}
