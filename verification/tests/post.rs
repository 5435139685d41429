use post_index::clock::NaiveTimestamp;
use post_index::post::{Article, Post, PostIndex};

fn article(id: i32, title: &str) -> Article {
    Article {
        id,
        title: title.to_string(),
        body: format!("body of {}", title),
        created_at: NaiveTimestamp { seconds: 1_704_067_200 + id as i64 },
    }
}

fn three() -> PostIndex {
    PostIndex::build(vec![
        article(10, "Hello World"),
        article(20, "Second post here"),
        article(30, "Hello World"),
    ])
}

#[test]
fn a_post_keeps_its_article_and_gains_a_slug() {
    let post = Post::from_article(article(5, "A fine day"));
    assert_eq!(post.id(), 5);
    assert_eq!(post.title(), "A fine day");
    assert_eq!(post.slug(), "A-fine-day");
    assert_eq!(post.body(), "body of A fine day");
    assert_eq!(post.created_at(), NaiveTimestamp { seconds: 1_704_067_205 });
}

#[test]
fn the_index_keeps_the_order_of_the_fetch() {
    let index = three();
    assert_eq!(index.len(), 3);
    assert_eq!(index.lookup_by_ordinal(1).unwrap().id(), 10);
    assert_eq!(index.lookup_by_ordinal(2).unwrap().id(), 20);
    assert_eq!(index.lookup_by_ordinal(3).unwrap().id(), 30);
}

#[test]
fn ordinals_outside_the_index_find_nothing() {
    let index = three();
    assert!(index.lookup_by_ordinal(0).is_none());
    assert!(index.lookup_by_ordinal(4).is_none());
    assert!(index.lookup_by_ordinal(usize::MAX).is_none());
}

#[test]
fn every_ordinal_from_one_to_the_size_finds_a_post() {
    let index = three();
    for n in 0..=5usize {
        assert_eq!(index.lookup_by_ordinal(n).is_some(), 1 <= n && n <= 3);
    }
}

#[test]
fn a_slug_finds_the_first_post_of_that_slug() {
    let index = three();
    assert_eq!(index.lookup_by_slug("Hello-World").unwrap().id(), 10);
    assert_eq!(index.lookup_by_slug("Second-post-here").unwrap().id(), 20);
}

#[test]
fn a_slug_must_match_exactly() {
    let index = three();
    assert!(index.lookup_by_slug("Hello World").is_none());
    assert!(index.lookup_by_slug("hello-world").is_none());
    assert!(index.lookup_by_slug("Hello-World-").is_none());
    assert!(index.lookup_by_slug("").is_none());
}

#[test]
fn a_repeated_slug_lookup_gives_the_same_post() {
    let index = three();
    let first = index.lookup_by_slug("Hello-World").unwrap();
    let second = index.lookup_by_slug("Hello-World").unwrap();
    assert_eq!(first.id(), second.id());
    assert_eq!(first.title(), second.title());
    assert!(std::ptr::eq(first, second));
    assert!(index.lookup_by_slug("absent").is_none());
    assert!(index.lookup_by_slug("absent").is_none());
}

#[test]
fn a_key_is_read_as_an_ordinal() {
    let index = three();
    assert_eq!(index.lookup("1").unwrap().id(), 10);
    assert_eq!(index.lookup("3").unwrap().id(), 30);
    assert_eq!(index.lookup("+2").unwrap().id(), 20);
    assert_eq!(index.lookup("03").unwrap().id(), 30);
}

#[test]
fn a_key_that_is_no_ordinal_of_the_index_finds_nothing() {
    let index = three();
    for key in ["0", "4", "", "one", "-1", "1.5", "Hello-World", "10", "99999999999999999999999999"] {
        assert!(index.lookup(key).is_none(), "{:?}", key);
    }
}

#[test]
fn the_listing_has_one_entry_for_every_post_in_order() {
    let listing = three().list_all();
    assert_eq!(listing.ids, vec!["10", "20", "30"]);
    assert_eq!(listing.links, vec!["Hello-World", "Second-post-here", "Hello-World"]);
}

#[test]
fn an_empty_index_lists_nothing_and_finds_nothing() {
    let index = PostIndex::build(Vec::new());
    assert_eq!(index.len(), 0);
    let listing = index.list_all();
    assert!(listing.ids.is_empty());
    assert!(listing.links.is_empty());
    assert!(index.lookup_by_ordinal(0).is_none());
    assert!(index.lookup_by_ordinal(1).is_none());
    assert!(index.lookup("1").is_none());
    assert!(index.lookup_by_slug("").is_none());
}
